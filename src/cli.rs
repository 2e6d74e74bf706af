//! Choices offered on the command line, and what they select.

use crate::colormap::inky_map::{InkyFourColorMap, InkyFourColorPalette};
use crate::colormap::mono_map::MonoColorMap;
use crate::colormap::SupportedColorMaps;
use vstd::prelude::*;

verus! {

/// Colors that can be rendered as a solid fill.
#[derive(Copy, Clone, Debug, PartialEq, Eq, Structural)]
pub enum CliColors {
    Black,
    White,
    Yellow,
    Red,
}

pub open spec fn palette_color_of(value: CliColors) -> InkyFourColorPalette {
    match value {
        CliColors::Black => InkyFourColorPalette::Black,
        CliColors::White => InkyFourColorPalette::White,
        CliColors::Yellow => InkyFourColorPalette::Yellow,
        CliColors::Red => InkyFourColorPalette::Red,
    }
}

impl From<CliColors> for InkyFourColorPalette {
    fn from(value: CliColors) -> (r: InkyFourColorPalette) {
        match value {
            CliColors::Black => InkyFourColorPalette::Black,
            CliColors::White => InkyFourColorPalette::White,
            CliColors::Yellow => InkyFourColorPalette::Yellow,
            CliColors::Red => InkyFourColorPalette::Red,
        }
    }
}

impl vstd::std_specs::convert::FromSpecImpl<CliColors> for InkyFourColorPalette {
    open spec fn obeys_from_spec() -> bool {
        true
    }

    open spec fn from_spec(v: CliColors) -> InkyFourColorPalette {
        palette_color_of(v)
    }
}

/// Color maps that can be chosen for quantisation.
#[derive(Copy, Clone, Debug, PartialEq, Eq, Structural)]
pub enum CliColorMaps {
    InkyFourColor,
    Mono,
}

impl From<CliColorMaps> for SupportedColorMaps {
    fn from(value: CliColorMaps) -> (r: SupportedColorMaps) {
        match value {
            CliColorMaps::InkyFourColor => SupportedColorMaps::InkyFourColor(InkyFourColorMap),
            CliColorMaps::Mono => SupportedColorMaps::Mono(MonoColorMap),
        }
    }
}

impl vstd::std_specs::convert::FromSpecImpl<CliColorMaps> for SupportedColorMaps {
    open spec fn obeys_from_spec() -> bool {
        true
    }

    open spec fn from_spec(v: CliColorMaps) -> SupportedColorMaps {
        match v {
            CliColorMaps::InkyFourColor => SupportedColorMaps::InkyFourColor(InkyFourColorMap),
            CliColorMaps::Mono => SupportedColorMaps::Mono(MonoColorMap),
        }
    }
}

} // verus!
