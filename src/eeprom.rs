//! Identification of the attached display from its EEPROM record.

use vstd::prelude::*;

verus! {

/// I2C address of the identity EEPROM.
pub const EEPROM_ADDRESS: u16 = 0x50;

/// Length of the identity record, in bytes.
pub const EEPROM_LENGTH: usize = 29;

/// Display-variant code of the JD79668 red/yellow wHAT.
pub const JD79668_VARIANT: u8 = 24;

/// The identity record of a display board.
#[derive(Clone, Copy, Debug, PartialEq, Eq, Structural)]
pub struct EepromInfo {
    pub width: u16,
    pub height: u16,
    pub color: u8,
    pub pcb_variant: u8,
    pub display_variant: u8,
}

/// Name of a display-variant code in the table of 25 known codes; "Unknown" past it.
pub open spec fn variant_name_spec(v: u8) -> Seq<char> {
    if v == 1 {
        "Red pHAT (High-Temp)"@
    } else if v == 2 {
        "Yellow wHAT"@
    } else if v == 3 {
        "Black wHAT"@
    } else if v == 4 {
        "Black pHAT"@
    } else if v == 5 {
        "Yellow pHAT"@
    } else if v == 6 || v == 8 {
        "Red wHAT"@
    } else if v == 7 {
        "Red wHAT (High-Temp)"@
    } else if v == 10 {
        "Black pHAT (SSD1608)"@
    } else if v == 11 {
        "Red pHAT (SSD1608)"@
    } else if v == 12 {
        "Yellow pHAT (SSD1608)"@
    } else if v == 14 {
        "7-Colour (UC8159) 600x448"@
    } else if v == 15 || v == 16 {
        "7-Colour 640x400 (UC8159)"@
    } else if v == 17 {
        "Black wHAT (SSD1683)"@
    } else if v == 18 {
        "Red wHAT (SSD1683)"@
    } else if v == 19 {
        "Yellow wHAT (SSD1683)"@
    } else if v == 20 {
        "7-Colour 800x480 (AC073TC1A)"@
    } else if v == 21 {
        "Spectra 6 13.3 1600x1200 (EL133UF1)"@
    } else if v == 22 {
        "Spectra 6 7.3 800x480 (E673)"@
    } else if v == 23 {
        "Red/Yellow pHAT (JD79661)"@
    } else if v == 24 {
        "Red/Yellow wHAT (JD79668)"@
    } else {
        "Unknown"@
    }
}

/// A display the driver can operate, with its resolution.
#[derive(Clone, Copy, Debug, PartialEq, Eq, Structural)]
pub enum DisplaySpec {
    Jd79668 { width: u16, height: u16 },
}

impl EepromInfo {
    /// The name of the board's display variant.
    pub fn variant_name(&self) -> (r: &'static str)
        ensures
            r@ == variant_name_spec(self.display_variant),
    {
        match self.display_variant {
            1 => "Red pHAT (High-Temp)",
            2 => "Yellow wHAT",
            3 => "Black wHAT",
            4 => "Black pHAT",
            5 => "Yellow pHAT",
            6 => "Red wHAT",
            7 => "Red wHAT (High-Temp)",
            8 => "Red wHAT",
            10 => "Black pHAT (SSD1608)",
            11 => "Red pHAT (SSD1608)",
            12 => "Yellow pHAT (SSD1608)",
            14 => "7-Colour (UC8159) 600x448",
            15 => "7-Colour 640x400 (UC8159)",
            16 => "7-Colour 640x400 (UC8159)",
            17 => "Black wHAT (SSD1683)",
            18 => "Red wHAT (SSD1683)",
            19 => "Yellow wHAT (SSD1683)",
            20 => "7-Colour 800x480 (AC073TC1A)",
            21 => "Spectra 6 13.3 1600x1200 (EL133UF1)",
            22 => "Spectra 6 7.3 800x480 (E673)",
            23 => "Red/Yellow pHAT (JD79661)",
            24 => "Red/Yellow wHAT (JD79668)",
            _ => "Unknown",
        }
    }

    /// The display the driver would operate for this record, for the variant codes it
    /// models.
    pub fn display_spec(&self) -> (r: Option<DisplaySpec>)
        ensures
            r == (if self.display_variant == JD79668_VARIANT {
                Some(DisplaySpec::Jd79668 { width: self.width, height: self.height })
            } else {
                None
            }),
    {
        match self.display_variant {
            JD79668_VARIANT => Some(DisplaySpec::Jd79668 { width: self.width, height: self.height }),
            _ => None,
        }
    }
}

/// Little-endian 16-bit value of two bytes.
pub open spec fn le_u16(lo: u8, hi: u8) -> u16 {
    (lo as int + 256 * (hi as int)) as u16
}

/// The fields of a record, before validation.
pub open spec fn record_info(data: Seq<u8>) -> EepromInfo {
    EepromInfo {
        width: le_u16(data[0], data[1]),
        height: le_u16(data[2], data[3]),
        color: data[4],
        pcb_variant: data[5],
        display_variant: data[6],
    }
}

/// Width and height are neither zero nor the largest 16-bit value.
pub open spec fn dims_valid(info: EepromInfo) -> bool {
    info.width != 0 && info.height != 0 && info.width != u16::MAX && info.height != u16::MAX
}

/// The character of a decimal digit.
pub open spec fn digit_char(d: nat) -> char {
    if d == 0 {
        '0'
    } else if d == 1 {
        '1'
    } else if d == 2 {
        '2'
    } else if d == 3 {
        '3'
    } else if d == 4 {
        '4'
    } else if d == 5 {
        '5'
    } else if d == 6 {
        '6'
    } else if d == 7 {
        '7'
    } else if d == 8 {
        '8'
    } else {
        '9'
    }
}

/// Decimal notation of `n`, without leading zeros.
pub open spec fn decimal(n: nat) -> Seq<char>
    decreases n,
{
    if n < 10 {
        seq![digit_char(n)]
    } else {
        decimal(n / 10) + seq![digit_char(n % 10)]
    }
}

/// Reason given for a record whose width or height is out of range.
pub open spec fn range_reason(width: u16, height: u16) -> Seq<char> {
    "width/height out of range (width="@ + decimal(width as nat) + ", height="@ + decimal(
        height as nat,
    ) + ")"@
}

/// Reason given for a record whose display variant is the unprogrammed value.
pub open spec fn variant_reason() -> Seq<char> {
    "display variant invalid (255)"@
}

/// Relies on `format!`: integers are written in decimal.
#[verifier::external_body]
fn range_message(width: u16, height: u16) -> (r: String)
    ensures
        r@ == range_reason(width, height),
{
    format!("width/height out of range (width={width}, height={height})")
}

/// Reads the identity fields of a record and validates them.
pub fn parse_eeprom(data: &[u8]) -> (r: Result<EepromInfo, String>)
    requires
        data@.len() >= 7,
    ensures
        ({
            let info = record_info(data@);
            &&& !dims_valid(info) ==> r is Err && r->Err_0@ == range_reason(info.width, info.height)
            &&& dims_valid(info) && info.display_variant == u8::MAX ==> r is Err && r->Err_0@
                == variant_reason()
            &&& dims_valid(info) && info.display_variant != u8::MAX ==> r == Ok::<
                EepromInfo,
                String,
            >(info)
        }),
{
    let width: u16 = data[0] as u16 + data[1] as u16 * 256;
    let height: u16 = data[2] as u16 + data[3] as u16 * 256;
    let color = data[4];
    let pcb_variant = data[5];
    let display_variant = data[6];
    if width == 0 || height == 0 || width == u16::MAX || height == u16::MAX {
        return Err(range_message(width, height));
    }
    if display_variant == u8::MAX {
        return Err(String::from_str("display variant invalid (255)"));
    }
    Ok(EepromInfo { width, height, color, pcb_variant, display_variant })
}

/// Every byte is 0x00 or 0xFF.
pub open spec fn blank_spec(data: Seq<u8>) -> bool {
    forall|i: int| 0 <= i < data.len() ==> #[trigger] data[i] == 0xFF || data[i] == 0x00
}

/// Whether a record is unprogrammed: every byte 0x00 or 0xFF.
pub fn is_blank_eeprom(data: &[u8]) -> (r: bool)
    ensures
        r == blank_spec(data@),
{
    let n = data.len();
    let mut i: usize = 0;
    while i < n
        invariant
            n == data@.len(),
            i <= n,
            forall|j: int| 0 <= j < i ==> #[trigger] data@[j] == 0xFF || data@[j] == 0x00,
        decreases n - i,
    {
        if data[i] != 0xFF && data[i] != 0x00 {
            return false;
        }
        i = i + 1;
    }
    true
}

/// Outcome of probing an I2C bus for a display EEPROM.
#[derive(Clone, Debug, PartialEq, Eq)]
pub enum I2cProbeStatus {
    /// A valid record.
    Found(EepromInfo),
    /// An unprogrammed EEPROM.
    Blank,
    /// A record that does not validate, and why.
    Invalid(String),
    /// No device, or no permission to open it: an expected absence.
    Unavailable,
    /// Any other failure, with its message.
    Error(String),
}

/// Model of an [`I2cProbeStatus`].
pub enum ProbeStatusView {
    Found(EepromInfo),
    Blank,
    Invalid(Seq<char>),
    Unavailable,
    Error(Seq<char>),
}

impl View for I2cProbeStatus {
    type V = ProbeStatusView;

    open spec fn view(&self) -> ProbeStatusView {
        match self {
            I2cProbeStatus::Found(info) => ProbeStatusView::Found(*info),
            I2cProbeStatus::Blank => ProbeStatusView::Blank,
            I2cProbeStatus::Invalid(reason) => ProbeStatusView::Invalid(reason@),
            I2cProbeStatus::Unavailable => ProbeStatusView::Unavailable,
            I2cProbeStatus::Error(message) => ProbeStatusView::Error(message@),
        }
    }
}

/// The classification of a record read in full.
pub open spec fn record_status(data: Seq<u8>) -> ProbeStatusView {
    let info = record_info(data);
    if blank_spec(data) {
        ProbeStatusView::Blank
    } else if !dims_valid(info) {
        ProbeStatusView::Invalid(range_reason(info.width, info.height))
    } else if info.display_variant == u8::MAX {
        ProbeStatusView::Invalid(variant_reason())
    } else {
        ProbeStatusView::Found(info)
    }
}

/// Classifies a record read from the EEPROM: blank, invalid with a reason, or found.
pub fn classify_eeprom(data: &[u8]) -> (r: I2cProbeStatus)
    requires
        data@.len() == EEPROM_LENGTH,
    ensures
        r@ == record_status(data@),
{
    if is_blank_eeprom(data) {
        return I2cProbeStatus::Blank;
    }
    match parse_eeprom(data) {
        Ok(parsed) => I2cProbeStatus::Found(parsed),
        Err(reason) => I2cProbeStatus::Invalid(reason),
    }
}

#[verifier::external_type_specification]
#[verifier::external_body]
pub struct ExPathBuf(std::path::PathBuf);

/// The outcome of probing one I2C bus.
#[derive(Debug)]
pub struct I2cBusReport {
    pub path: std::path::PathBuf,
    pub status: I2cProbeStatus,
}

/// The kinds of I/O failure that probing tells apart.
#[derive(Clone, Copy, Debug, PartialEq, Eq, Structural)]
pub enum IoErrorKind {
    NotFound,
    PermissionDenied,
    Other,
}

/// Classifies an I/O failure: a missing device or a denied permission is an expected
/// absence, anything else an error with its message.
pub fn classify_io_failure(kind: IoErrorKind, message: String) -> (r: I2cProbeStatus)
    ensures
        r@ == (if kind == IoErrorKind::NotFound || kind == IoErrorKind::PermissionDenied {
            ProbeStatusView::Unavailable
        } else {
            ProbeStatusView::Error(message@)
        }),
{
    match kind {
        IoErrorKind::NotFound | IoErrorKind::PermissionDenied => I2cProbeStatus::Unavailable,
        IoErrorKind::Other => I2cProbeStatus::Error(message),
    }
}

#[verifier::external_type_specification]
#[verifier::external_body]
pub struct ExIoError(std::io::Error);

/// Relies on `std::io::Error::kind`, sorted into the kinds probing tells apart.
#[verifier::external_body]
fn io_error_kind(err: &std::io::Error) -> (r: IoErrorKind) {
    match err.kind() {
        std::io::ErrorKind::NotFound => IoErrorKind::NotFound,
        std::io::ErrorKind::PermissionDenied => IoErrorKind::PermissionDenied,
        _ => IoErrorKind::Other,
    }
}

/// Relies on `std::io::Error::from_raw_os_error`: the error of an OS error code.
#[verifier::external_body]
fn os_error(code: i32) -> (r: std::io::Error) {
    std::io::Error::from_raw_os_error(code)
}

/// Classifies an I/O error met while probing.
pub fn handle_io_error(io_err: std::io::Error) -> (r: I2cProbeStatus)
    ensures
        r is Unavailable || r is Error,
{
    let kind = io_error_kind(&io_err);
    let message = io_err.to_string();
    classify_io_failure(kind, message)
}

/// Classifies an OS error code met while probing.
pub fn handle_errno(code: i32) -> (r: I2cProbeStatus)
    ensures
        r is Unavailable || r is Error,
{
    handle_io_error(os_error(code))
}

} // verus!
