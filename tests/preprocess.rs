use libtatted::{
    dither, index_colors, ImagePreProcessor, IndexImage, InkyError, InkyFourColorMap, MonoColorMap,
    Resolution, Rgb, RgbImage,
};

fn raster(w: u32, h: u32, px: &[(u8, u8, u8)]) -> RgbImage {
    let data: Vec<Rgb> = px.iter().map(|&(r, g, b)| Rgb::new(r, g, b)).collect();
    RgbImage::from_raw(w, h, data).unwrap()
}

#[test]
fn raw_buffers_must_match_their_dimensions() {
    assert!(RgbImage::from_raw(2, 2, vec![Rgb::new(0, 0, 0); 3]).is_none());
    assert!(IndexImage::from_raw(2, 3, vec![0u8; 6]).is_some());
    let img = IndexImage::from_raw(2, 2, vec![0, 1, 2, 3]).unwrap();
    assert_eq!(img.get_pixel(1, 1), 3);
    assert_eq!(img.get_pixel(0, 1), 2);
}

#[test]
fn prepare_rejects_mismatched_resolution() {
    let pre = ImagePreProcessor::new(InkyFourColorMap, Resolution::new(4, 3));
    let img = raster(3, 4, &[(0, 0, 0); 12]);
    for dither in [false, true] {
        match pre.prepare(&img, dither) {
            Err(e) => assert_eq!(
                e,
                InkyError::UnsupportedResolution {
                    expected: Resolution::new(4, 3),
                    found: Resolution::new(3, 4)
                }
            ),
            Ok(_) => panic!("a mismatched resolution was accepted"),
        }
    }
}

#[test]
fn prepare_without_dither_indexes_each_pixel() {
    let pre = ImagePreProcessor::new(InkyFourColorMap, Resolution::new(2, 2));
    let img = raster(2, 2, &[(10, 10, 10), (250, 250, 240), (200, 190, 10), (230, 20, 20)]);
    let out = pre.prepare(&img, false).unwrap();
    assert_eq!(out.resolution(), Resolution::new(2, 2));
    assert_eq!(out.index_img().into_vec(), vec![0, 1, 2, 3]);
    assert_eq!(
        out.pixel_img().as_slice().to_vec(),
        vec![Rgb::new(0, 0, 0), Rgb::new(255, 255, 255), Rgb::new(255, 255, 0), Rgb::new(255, 0, 0)]
    );
}

#[test]
fn dither_spreads_the_error_to_the_right() {
    // 128 grey maps to white; -127 * 7 / 16 = -55 pushes its neighbour to 73, which maps to black.
    let pre = ImagePreProcessor::new(MonoColorMap, Resolution::new(2, 1));
    let img = raster(2, 1, &[(128, 128, 128), (128, 128, 128)]);
    assert_eq!(pre.prepare(&img, false).unwrap().index_img().into_vec(), vec![1, 1]);
    assert_eq!(pre.prepare(&img, true).unwrap().index_img().into_vec(), vec![1, 0]);
}

#[test]
fn dither_weights_reach_all_four_neighbours() {
    let mut img = raster(3, 2, &[(100, 100, 100); 6]);
    dither(&mut img, &MonoColorMap);
    // (0,0): 100 -> black, error +100: right +43, below +31, lower right +6.
    // (1,0): 143 -> white, error -112: right -49, lower left -21, below -35, lower right -7.
    // (2,0): 51 -> black, error +51: lower left +9, below +15.
    // Row 1 is then (110, 80, 108): black, then 80 + (110 * 7 / 16 = 48) = 128 -> white,
    // then 108 + (-127 * 7 / 16 = -55) = 53 -> black.
    let px: Vec<u8> = img.as_slice().iter().map(|c| c.r).collect();
    assert_eq!(px, vec![0, 255, 0, 0, 255, 0]);
    let idx = index_colors(&img, &MonoColorMap);
    assert!(idx.as_slice().iter().all(|&i| i < 2));
}

#[test]
fn dithering_is_deterministic() {
    let px: Vec<(u8, u8, u8)> = (0..48u32).map(|i| ((i * 5) as u8, (i * 11 % 256) as u8, (255 - i * 3) as u8)).collect();
    let img = raster(8, 6, &px);
    let pre = ImagePreProcessor::new(InkyFourColorMap, Resolution::new(8, 6));
    let a = pre.prepare(&img, true).unwrap().index_img().into_vec();
    let b = pre.prepare(&img, true).unwrap().index_img().into_vec();
    assert_eq!(a, b);
    assert!(a.iter().all(|&i| i < 4));
}

#[test]
fn every_index_lies_in_the_palette() {
    let px: Vec<(u8, u8, u8)> = (0..30u32).map(|i| ((i * 37) as u8, (i * 91) as u8, (i * 13) as u8)).collect();
    let img = raster(6, 5, &px);
    for dither in [false, true] {
        let four = ImagePreProcessor::new(InkyFourColorMap, Resolution::new(6, 5));
        assert!(four.prepare(&img, dither).unwrap().index_img().into_vec().iter().all(|&i| i < 4));
        let mono = ImagePreProcessor::new(MonoColorMap, Resolution::new(6, 5));
        assert!(mono.prepare(&img, dither).unwrap().index_img().into_vec().iter().all(|&i| i < 2));
    }
}

#[test]
fn single_column_and_empty_rasters_dither() {
    let mut col = raster(1, 3, &[(200, 200, 200), (60, 60, 60), (128, 128, 128)]);
    dither(&mut col, &MonoColorMap);
    // 200 -> white (error -55 -> below -17): 43 -> black (error +43 -> below +13): 141 -> white.
    let r: Vec<u8> = col.as_slice().iter().map(|c| c.r).collect();
    assert_eq!(r, vec![255, 0, 255]);
    let mut empty = raster(0, 0, &[]);
    dither(&mut empty, &InkyFourColorMap);
    assert_eq!(empty.as_slice().len(), 0);
}

#[test]
fn solid_fill_uses_the_nearest_palette_index() {
    let pre = ImagePreProcessor::new(InkyFourColorMap, Resolution::new(5, 2));
    let out = pre.new_color(Rgb::new(255, 255, 0)).unwrap();
    assert_eq!(out.index_img().into_vec(), vec![2; 10]);
    assert_eq!(out.pixel_img().as_slice().to_vec(), vec![Rgb::new(255, 255, 0); 10]);
    let out = pre.new_color(Rgb::new(240, 240, 250)).unwrap();
    assert_eq!(out.index_img().into_vec(), vec![1; 10]);
}

#[test]
fn dithered_pixels_are_palette_colors() {
    let px: Vec<(u8, u8, u8)> = (0..35u32).map(|i| ((i * 29) as u8, (i * 53) as u8, (i * 7 + 90) as u8)).collect();
    let mut img = raster(7, 5, &px);
    dither(&mut img, &InkyFourColorMap);
    let palette = [Rgb::new(0, 0, 0), Rgb::new(255, 255, 255), Rgb::new(255, 255, 0), Rgb::new(255, 0, 0)];
    assert_eq!(img.as_slice().len(), 35);
    assert!(img.as_slice().iter().all(|c| palette.contains(c)));
}
