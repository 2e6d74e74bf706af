//! Rendering pipeline and protocol logic for a four-color e-paper panel driven by a
//! JD79668 controller: palette quantisation, dithering, pixel packing, EEPROM identity
//! parsing and the controller's command sequences.

pub mod cli;
pub mod colormap;
pub mod eeprom;
pub mod error;
pub mod image;
pub mod jd79668;

pub use crate::cli::{CliColorMaps, CliColors};
pub use crate::colormap::inky_map::{InkyFourColorMap, InkyFourColorPalette};
pub use crate::colormap::mono_map::{MonoColorMap, MonoColorPalette};
pub use crate::colormap::{ColorMap, Rgb, SupportedColorMaps};
pub use crate::eeprom::{
    classify_eeprom, classify_io_failure, handle_errno, handle_io_error, is_blank_eeprom,
    parse_eeprom, DisplaySpec, EepromInfo, I2cBusReport, I2cProbeStatus, IoErrorKind,
};
pub use crate::error::{InkyError, InkyResult};
pub use crate::image::{dither, index_colors, ImagePreProcessor, IndexImage, InkyImage, RgbImage};
pub use crate::jd79668::{
    busy_wait_step, BusyPoll, DriverState, InkyJd79668, Jd79668Commands, Level, Line,
    Step,
};

use vstd::prelude::*;

verus! {

/// Resolution, of an image or a display, expressed in pixels.
#[derive(Debug, Copy, Clone, PartialEq, Eq, Structural)]
pub struct Resolution {
    pub width: u32,
    pub height: u32,
}

impl Resolution {
    pub fn new(w: u32, h: u32) -> (r: Self)
        ensures
            r.width == w,
            r.height == h,
    {
        Self { width: w, height: h }
    }

    /// Number of pixels covered by this resolution.
    pub open spec fn area(self) -> nat {
        (self.width as nat) * (self.height as nat)
    }
}

} // verus!
