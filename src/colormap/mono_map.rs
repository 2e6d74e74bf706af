//! A color map of black and white only.

use crate::colormap::{nearest_in, ColorMap, Rgb};
use crate::error::InkyError;
use vstd::prelude::*;

verus! {

/// Colors of the monochrome palette, in palette index order.
#[derive(Copy, Clone, Debug, PartialEq, Eq, Structural)]
pub enum MonoColorPalette {
    Black,
    White,
}

impl MonoColorPalette {
    /// The RGB value of this color.
    pub open spec fn rgb_spec(self) -> Rgb {
        match self {
            MonoColorPalette::Black => Rgb { r: 0, g: 0, b: 0 },
            MonoColorPalette::White => Rgb { r: 255, g: 255, b: 255 },
        }
    }

    /// The color at a palette index, if the index is in the palette.
    pub open spec fn from_index_spec(value: usize) -> Result<MonoColorPalette, InkyError> {
        if value == 0 {
            Ok(MonoColorPalette::Black)
        } else if value == 1 {
            Ok(MonoColorPalette::White)
        } else {
            Err(InkyError::OutOfPaletteError)
        }
    }
}

/// The monochrome palette: black, white.
pub open spec fn mono_palette() -> Seq<Rgb> {
    seq![MonoColorPalette::Black.rgb_spec(), MonoColorPalette::White.rgb_spec()]
}

impl From<MonoColorPalette> for Rgb {
    fn from(color: MonoColorPalette) -> (r: Rgb) {
        match color {
            MonoColorPalette::Black => Rgb { r: 0, g: 0, b: 0 },
            MonoColorPalette::White => Rgb { r: 255, g: 255, b: 255 },
        }
    }
}

impl vstd::std_specs::convert::FromSpecImpl<MonoColorPalette> for Rgb {
    open spec fn obeys_from_spec() -> bool {
        true
    }

    open spec fn from_spec(v: MonoColorPalette) -> Rgb {
        v.rgb_spec()
    }
}

impl TryFrom<usize> for MonoColorPalette {
    type Error = InkyError;

    fn try_from(value: usize) -> (r: Result<Self, Self::Error>) {
        match value {
            0 => Ok(MonoColorPalette::Black),
            1 => Ok(MonoColorPalette::White),
            _ => Err(InkyError::OutOfPaletteError),
        }
    }
}

impl vstd::std_specs::convert::TryFromSpecImpl<usize> for MonoColorPalette {
    open spec fn obeys_try_from_spec() -> bool {
        true
    }

    open spec fn try_from_spec(v: usize) -> Result<Self, InkyError> {
        MonoColorPalette::from_index_spec(v)
    }
}

/// Color map onto black and white.
#[derive(Copy, Clone, Debug)]
pub struct MonoColorMap;

impl ColorMap for MonoColorMap {
    open spec fn palette_spec(&self) -> Seq<Rgb> {
        mono_palette()
    }

    proof fn lemma_palette_valid(&self) {
    }

    fn palette(&self) -> (r: Vec<Rgb>) {
        let mut v: Vec<Rgb> = Vec::new();
        v.push(Rgb::from(MonoColorPalette::Black));
        v.push(Rgb::from(MonoColorPalette::White));
        assert(v@ =~= mono_palette());
        v
    }

    fn index_of(&self, color: &Rgb) -> (r: usize) {
        let p = self.palette();
        nearest_in(p.as_slice(), color)
    }

    fn has_lookup(&self) -> (r: bool) {
        true
    }

    fn lookup(&self, index: usize) -> (r: Option<Rgb>) {
        match MonoColorPalette::try_from(index) {
            Ok(color) => Some(Rgb::from(color)),
            Err(_) => None,
        }
    }

    fn map_color(&self, color: &mut Rgb) {
        let nearest_color_index = self.index_of(color);
        match self.lookup(nearest_color_index) {
            Some(nearest_color) => {
                *color = nearest_color;
            },
            None => {},
        }
    }
}

} // verus!
