//! The four colors of the JD79668 panel.

use crate::colormap::{nearest_in, ColorMap, Rgb};
use crate::error::InkyError;
use vstd::prelude::*;

verus! {

/// Colors of the four-color panel, in palette index order.
#[derive(Copy, Clone, Debug, PartialEq, Eq, Structural)]
pub enum InkyFourColorPalette {
    Black,
    White,
    Yellow,
    Red,
}

impl InkyFourColorPalette {
    /// Palette index of this color.
    pub open spec fn index_spec(self) -> nat {
        match self {
            InkyFourColorPalette::Black => 0,
            InkyFourColorPalette::White => 1,
            InkyFourColorPalette::Yellow => 2,
            InkyFourColorPalette::Red => 3,
        }
    }

    /// The RGB value of this color.
    pub open spec fn rgb_spec(self) -> Rgb {
        match self {
            InkyFourColorPalette::Black => Rgb { r: 0, g: 0, b: 0 },
            InkyFourColorPalette::White => Rgb { r: 255, g: 255, b: 255 },
            InkyFourColorPalette::Yellow => Rgb { r: 255, g: 255, b: 0 },
            InkyFourColorPalette::Red => Rgb { r: 255, g: 0, b: 0 },
        }
    }

    /// The color at a palette index, if the index is in the palette.
    pub open spec fn from_index_spec(value: usize) -> Result<InkyFourColorPalette, InkyError> {
        if value == 0 {
            Ok(InkyFourColorPalette::Black)
        } else if value == 1 {
            Ok(InkyFourColorPalette::White)
        } else if value == 2 {
            Ok(InkyFourColorPalette::Yellow)
        } else if value == 3 {
            Ok(InkyFourColorPalette::Red)
        } else {
            Err(InkyError::OutOfPaletteError)
        }
    }

    /// Palette index of this color.
    pub fn index(&self) -> (r: usize)
        ensures
            r == self.index_spec(),
    {
        match self {
            InkyFourColorPalette::Black => 0,
            InkyFourColorPalette::White => 1,
            InkyFourColorPalette::Yellow => 2,
            InkyFourColorPalette::Red => 3,
        }
    }
}

/// The four-color palette: black, white, yellow, red.
pub open spec fn inky_palette() -> Seq<Rgb> {
    seq![
        InkyFourColorPalette::Black.rgb_spec(),
        InkyFourColorPalette::White.rgb_spec(),
        InkyFourColorPalette::Yellow.rgb_spec(),
        InkyFourColorPalette::Red.rgb_spec(),
    ]
}

impl From<InkyFourColorPalette> for Rgb {
    fn from(color: InkyFourColorPalette) -> (r: Rgb) {
        match color {
            InkyFourColorPalette::Black => Rgb { r: 0, g: 0, b: 0 },
            InkyFourColorPalette::White => Rgb { r: 255, g: 255, b: 255 },
            InkyFourColorPalette::Yellow => Rgb { r: 255, g: 255, b: 0 },
            InkyFourColorPalette::Red => Rgb { r: 255, g: 0, b: 0 },
        }
    }
}

impl vstd::std_specs::convert::FromSpecImpl<InkyFourColorPalette> for Rgb {
    open spec fn obeys_from_spec() -> bool {
        true
    }

    open spec fn from_spec(v: InkyFourColorPalette) -> Rgb {
        v.rgb_spec()
    }
}

impl TryFrom<usize> for InkyFourColorPalette {
    type Error = InkyError;

    fn try_from(value: usize) -> (r: Result<Self, Self::Error>) {
        match value {
            0 => Ok(InkyFourColorPalette::Black),
            1 => Ok(InkyFourColorPalette::White),
            2 => Ok(InkyFourColorPalette::Yellow),
            3 => Ok(InkyFourColorPalette::Red),
            _ => Err(InkyError::OutOfPaletteError),
        }
    }
}

impl vstd::std_specs::convert::TryFromSpecImpl<usize> for InkyFourColorPalette {
    open spec fn obeys_try_from_spec() -> bool {
        true
    }

    open spec fn try_from_spec(v: usize) -> Result<Self, InkyError> {
        InkyFourColorPalette::from_index_spec(v)
    }
}

/// Color map onto the four-color palette.
#[derive(Copy, Clone, Debug)]
pub struct InkyFourColorMap;

impl ColorMap for InkyFourColorMap {
    open spec fn palette_spec(&self) -> Seq<Rgb> {
        inky_palette()
    }

    proof fn lemma_palette_valid(&self) {
    }

    fn palette(&self) -> (r: Vec<Rgb>) {
        let mut v: Vec<Rgb> = Vec::new();
        v.push(Rgb::from(InkyFourColorPalette::Black));
        v.push(Rgb::from(InkyFourColorPalette::White));
        v.push(Rgb::from(InkyFourColorPalette::Yellow));
        v.push(Rgb::from(InkyFourColorPalette::Red));
        assert(v@ =~= inky_palette());
        v
    }

    fn index_of(&self, color: &Rgb) -> (r: usize) {
        let p = self.palette();
        nearest_in(p.as_slice(), color)
    }

    fn has_lookup(&self) -> (r: bool) {
        true
    }

    fn lookup(&self, index: usize) -> (r: Option<Rgb>) {
        match InkyFourColorPalette::try_from(index) {
            Ok(color) => Some(Rgb::from(color)),
            Err(_) => None,
        }
    }

    fn map_color(&self, color: &mut Rgb) {
        let nearest_color_index = self.index_of(color);
        match self.lookup(nearest_color_index) {
            Some(nearest_color) => {
                *color = nearest_color;
            },
            None => {},
        }
    }
}

} // verus!
