use libtatted::{
    CliColorMaps, CliColors, ColorMap, InkyError, InkyFourColorMap, InkyFourColorPalette,
    MonoColorMap, MonoColorPalette, Rgb, SupportedColorMaps,
};

#[test]
fn basic_mapping() {
    let map = InkyFourColorMap;
    assert_eq!(map.index_of(&Rgb::new(10, 10, 10)), 0);
    assert_eq!(map.index_of(&Rgb::new(250, 250, 240)), 1);
    assert_eq!(map.index_of(&Rgb::new(200, 190, 10)), 2);
    assert_eq!(map.index_of(&Rgb::new(230, 20, 20)), 3);
}

#[test]
fn palette_colors_map_to_themselves() {
    let map = InkyFourColorMap;
    for (i, c) in map.palette().iter().enumerate() {
        assert_eq!(map.index_of(c), i);
        assert_eq!(map.lookup(i), Some(*c));
    }
}

#[test]
fn lookup_out_of_range_is_none() {
    assert_eq!(InkyFourColorMap.lookup(4), None);
    assert_eq!(InkyFourColorMap.lookup(usize::MAX), None);
    assert_eq!(MonoColorMap.lookup(2), None);
    assert_eq!(MonoColorMap.lookup(1), Some(Rgb::new(255, 255, 255)));
    assert!(InkyFourColorMap.has_lookup());
}

#[test]
fn map_color_replaces_with_nearest() {
    let mut c = Rgb::new(230, 20, 20);
    InkyFourColorMap.map_color(&mut c);
    assert_eq!(c, Rgb::new(255, 0, 0));
    let mut g = Rgb::new(100, 100, 100);
    MonoColorMap.map_color(&mut g);
    assert_eq!(g, Rgb::new(0, 0, 0));
}

#[test]
fn lookup_of_index_is_idempotent() {
    for map in [SupportedColorMaps::InkyFourColor(InkyFourColorMap), SupportedColorMaps::Mono(MonoColorMap)] {
        for c in [Rgb::new(10, 200, 30), Rgb::new(128, 128, 128), Rgb::new(255, 120, 0), Rgb::new(3, 3, 250)] {
            let once = map.index_of(&c);
            let color = map.lookup(once).unwrap();
            let twice = map.index_of(&color);
            assert_eq!(once, twice);
            assert_eq!(map.lookup(twice), Some(color));
        }
    }
}

#[test]
fn ties_go_to_the_lower_index() {
    // (100, 155, 0) lies 34025 from black and 34025 from yellow.
    assert_eq!(InkyFourColorMap.index_of(&Rgb::new(100, 155, 0)), 0);
    // (255, 128, 0) lies nearer yellow than red.
    assert_eq!(InkyFourColorMap.index_of(&Rgb::new(255, 128, 0)), 2);
}

#[test]
fn palette_index_conversions() {
    assert_eq!(InkyFourColorPalette::try_from(2usize), Ok(InkyFourColorPalette::Yellow));
    assert_eq!(InkyFourColorPalette::try_from(4usize), Err(InkyError::OutOfPaletteError));
    assert_eq!(MonoColorPalette::try_from(1usize), Ok(MonoColorPalette::White));
    assert_eq!(MonoColorPalette::try_from(2usize), Err(InkyError::OutOfPaletteError));
    assert_eq!(Rgb::from(InkyFourColorPalette::Yellow), Rgb::new(255, 255, 0));
    assert_eq!(Rgb::from(MonoColorPalette::White), Rgb::new(255, 255, 255));
    assert_eq!(InkyFourColorPalette::Red.index(), 3);
}

#[test]
fn cli_choices_select_palette_and_map() {
    assert_eq!(InkyFourColorPalette::from(CliColors::Red), InkyFourColorPalette::Red);
    assert_eq!(InkyFourColorPalette::from(CliColors::White), InkyFourColorPalette::White);
    let m = SupportedColorMaps::from(CliColorMaps::Mono);
    assert_eq!(m.palette().len(), 2);
    let m = SupportedColorMaps::from(CliColorMaps::InkyFourColor);
    assert_eq!(m.palette().len(), 4);
}
