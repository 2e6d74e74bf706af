use crate::Resolution;
use vstd::prelude::*;

verus! {

/// Errors raised by the rendering pipeline and the display protocol.
#[allow(inconsistent_fields)]
#[derive(Debug, Copy, Clone, PartialEq, Eq, Structural)]
pub enum InkyError {
    /// The busy line did not report ready within the given number of milliseconds.
    BusyTimeout { timeout_ms: u64 },
    /// An image was shown before the display was initialized.
    Uninitialized,
    /// An index image holds a value outside `[index_min, index_max]`.
    InvalidPalettization {
        /// The minimum index expected for this display's color palette
        index_min: usize,
        /// The maximum index expected for this display's color palette
        index_max: usize,
    },
    /// A buffer does not have the length its resolution calls for.
    InvalidBufferLength {
        /// The expected size of a palletized image buffer
        expected: usize,
        /// The buffer length discovered
        found: usize,
    },
    /// An image does not have the display's native resolution.
    UnsupportedResolution { expected: Resolution, found: Resolution },
    /// A color index lies outside the palette.
    OutOfPaletteError,
}

pub type InkyResult<T> = Result<T, InkyError>;

} // verus!
