//! The JD79668 controller protocol: pixel packing, command framing over SPI with GPIO
//! handshaking, the reset / initialisation / refresh sequences, and busy-line polling.
//!
//! The library decides what goes on the wire and in which order; a caller that owns the
//! GPIO lines and the SPI device performs each [`Step`] in turn and stops at the first
//! failure.

use crate::error::{InkyError, InkyResult};
use crate::image::InkyImage;
use crate::Resolution;
use vstd::prelude::*;
use vstd::slice::{slice_subrange, slice_to_vec};

verus! {

/// Largest single SPI transfer, in bytes.
pub const SPI_CHUNK_SIZE: usize = 4096;

/// Settling delay after switching the data/command line, in milliseconds.
pub const LINE_SETTLE_MS: u64 = 300;

/// Hold time of each phase of a hardware reset, in milliseconds.
pub const RESET_HOLD_MS: u64 = 100;

/// Busy-line timeout after the hardware reset, in milliseconds.
pub const RESET_READY_TIMEOUT_MS: u64 = 1000;

/// Busy-line timeout of each power and refresh command, in milliseconds.
pub const REFRESH_TIMEOUT_MS: u64 = 40000;

/// Interval between two reads of a busy line, in milliseconds.
pub const BUSY_POLL_MS: u64 = 10;

/// Resolution setting: 400 columns (0x0190) and 300 rows (0x012C), high byte first.
pub const X_ADDR_START_H: u8 = 0x01;
pub const X_ADDR_START_L: u8 = 0x90;
pub const Y_ADDR_START_H: u8 = 0x01;
pub const Y_ADDR_START_L: u8 = 0x2C;

/// Largest index the 2-bit wire format can carry.
pub const MAX_WIRE_INDEX: usize = 3;

/// Index `i` of `pixels`, or 0 past its end.
pub open spec fn pixel_or_zero(pixels: Seq<u8>, i: int) -> int {
    if 0 <= i < pixels.len() {
        pixels[i] as int
    } else {
        0
    }
}

/// Byte `j` of the wire format: pixels `4j .. 4j + 3`, the first in the two most
/// significant bits.
pub open spec fn packed_byte(pixels: Seq<u8>, j: int) -> u8 {
    (pixel_or_zero(pixels, 4 * j) * 64 + pixel_or_zero(pixels, 4 * j + 1) * 16 + pixel_or_zero(
        pixels,
        4 * j + 2,
    ) * 4 + pixel_or_zero(pixels, 4 * j + 3)) as u8
}

/// Number of bytes that `n` pixels take on the wire.
pub open spec fn packed_len(n: nat) -> nat {
    (n + 3) / 4
}

/// The wire format of `pixels`: four 2-bit pixels per byte, a last partial group padded
/// with zeros.
pub open spec fn packed(pixels: Seq<u8>) -> Seq<u8> {
    Seq::new(packed_len(pixels.len()), |j: int| packed_byte(pixels, j))
}

/// Every pixel fits the 2-bit wire format.
pub open spec fn fits_wire(pixels: Seq<u8>) -> bool {
    forall|i: int| 0 <= i < pixels.len() ==> #[trigger] pixels[i] <= MAX_WIRE_INDEX
}

/// Pixel `base + offset`, or 0 past the end.
fn pixel_at(pixels: &[u8], base: usize, offset: usize) -> (r: u8)
    requires
        base < pixels@.len(),
        offset < 4,
    ensures
        r as int == pixel_or_zero(pixels@, base + offset),
{
    if offset < pixels.len() - base {
        pixels[base + offset]
    } else {
        0
    }
}

/// SPI control registers of the controller used to operate the display.
#[derive(Copy, Clone, Debug, PartialEq, Eq, Structural)]
pub enum Jd79668Commands {
    PanelSetting,
    PowerSetting,
    PowerOff,
    PowerOn,
    BoosterSoftStart,
    DeepSleep,
    DataStartTransmission,
    DataStopTransmission,
    DisplayRefresh,
    AutoSequence,
    VcomDataIntervalSetting,
    ResolutionSetting,
}

impl Jd79668Commands {
    /// The register address of this command.
    pub open spec fn code_spec(self) -> u8 {
        match self {
            Jd79668Commands::PanelSetting => 0x00,
            Jd79668Commands::PowerSetting => 0x01,
            Jd79668Commands::PowerOff => 0x02,
            Jd79668Commands::PowerOn => 0x04,
            Jd79668Commands::BoosterSoftStart => 0x06,
            Jd79668Commands::DeepSleep => 0x07,
            Jd79668Commands::DataStartTransmission => 0x10,
            Jd79668Commands::DataStopTransmission => 0x11,
            Jd79668Commands::DisplayRefresh => 0x12,
            Jd79668Commands::AutoSequence => 0x17,
            Jd79668Commands::VcomDataIntervalSetting => 0x50,
            Jd79668Commands::ResolutionSetting => 0x61,
        }
    }

    /// The register address of this command.
    pub fn code(self) -> (r: u8)
        ensures
            r == self.code_spec(),
    {
        match self {
            Jd79668Commands::PanelSetting => 0x00,
            Jd79668Commands::PowerSetting => 0x01,
            Jd79668Commands::PowerOff => 0x02,
            Jd79668Commands::PowerOn => 0x04,
            Jd79668Commands::BoosterSoftStart => 0x06,
            Jd79668Commands::DeepSleep => 0x07,
            Jd79668Commands::DataStartTransmission => 0x10,
            Jd79668Commands::DataStopTransmission => 0x11,
            Jd79668Commands::DisplayRefresh => 0x12,
            Jd79668Commands::AutoSequence => 0x17,
            Jd79668Commands::VcomDataIntervalSetting => 0x50,
            Jd79668Commands::ResolutionSetting => 0x61,
        }
    }
}

/// The output lines the driver drives.
#[derive(Copy, Clone, Debug, PartialEq, Eq, Structural)]
pub enum Line {
    ChipSelect,
    DataCmd,
    Reset,
}

/// Logical level of a GPIO line.
#[derive(Copy, Clone, Debug, PartialEq, Eq, Structural)]
pub enum Level {
    Active,
    Inactive,
}

/// One action on the hardware.
#[derive(Debug, PartialEq, Eq)]
pub enum Step {
    /// Drive an output line to a level.
    Drive { line: Line, level: Level },
    /// Sleep for the given number of milliseconds.
    Sleep { ms: u64 },
    /// Write the bytes in one SPI transfer.
    Write { bytes: Vec<u8> },
    /// Wait for the busy line to report ready, failing after the given number of
    /// milliseconds.
    WaitReady { timeout_ms: u64 },
}

/// Model of a [`Step`].
pub enum StepSpec {
    Drive(Line, Level),
    Sleep(u64),
    Write(Seq<u8>),
    WaitReady(u64),
}

impl View for Step {
    type V = StepSpec;

    open spec fn view(&self) -> StepSpec {
        match self {
            Step::Drive { line, level } => StepSpec::Drive(*line, *level),
            Step::Sleep { ms } => StepSpec::Sleep(*ms),
            Step::Write { bytes } => StepSpec::Write(bytes@),
            Step::WaitReady { timeout_ms } => StepSpec::WaitReady(*timeout_ms),
        }
    }
}

pub open spec fn steps_view(steps: Seq<Step>) -> Seq<StepSpec> {
    steps.map_values(|s: Step| s@)
}

pub open spec fn opt_view(data: Option<&[u8]>) -> Option<Seq<u8>> {
    match data {
        Some(d) => Some(d@),
        None => None,
    }
}

/// SPI frames carrying `data[off..]`, at most [`SPI_CHUNK_SIZE`] bytes each; a payload
/// that fits one frame goes in one write, even when empty.
pub open spec fn frames_from(data: Seq<u8>, off: nat) -> Seq<StepSpec>
    decreases data.len() - off,
{
    if data.len() <= off + SPI_CHUNK_SIZE {
        seq![StepSpec::Write(data.subrange(off as int, data.len() as int))]
    } else {
        seq![StepSpec::Write(data.subrange(off as int, off + SPI_CHUNK_SIZE))] + frames_from(
            data,
            (off + SPI_CHUNK_SIZE) as nat,
        )
    }
}

/// The framing of one command: chip select and data/command into command mode, settle,
/// the command byte; then, for a payload, data mode, settle and the payload in frames;
/// then chip select released and data/command back to idle.
pub open spec fn command_spec(command: u8, data: Option<Seq<u8>>) -> Seq<StepSpec> {
    let head = seq![
        StepSpec::Drive(Line::ChipSelect, Level::Inactive),
        StepSpec::Drive(Line::DataCmd, Level::Inactive),
        StepSpec::Sleep(LINE_SETTLE_MS),
        StepSpec::Write(seq![command]),
    ];
    let body = match data {
        Some(d) => seq![StepSpec::Drive(Line::DataCmd, Level::Active), StepSpec::Sleep(LINE_SETTLE_MS)]
            + frames_from(d, 0),
        None => Seq::empty(),
    };
    let tail = seq![
        StepSpec::Drive(Line::ChipSelect, Level::Active),
        StepSpec::Drive(Line::DataCmd, Level::Inactive),
    ];
    head + body + tail
}

/// A command whose completion the controller signals on the busy line.
pub open spec fn command_wait_spec(command: u8, data: Option<Seq<u8>>, timeout_ms: u64) -> Seq<
    StepSpec,
> {
    command_spec(command, data) + seq![StepSpec::WaitReady(timeout_ms)]
}

/// The hardware reset: reset line inactive, hold, active, hold.
pub open spec fn reset_spec() -> Seq<StepSpec> {
    seq![
        StepSpec::Drive(Line::Reset, Level::Inactive),
        StepSpec::Sleep(RESET_HOLD_MS),
        StepSpec::Drive(Line::Reset, Level::Active),
        StepSpec::Sleep(RESET_HOLD_MS),
    ]
}

/// The initialisation sequence: reset, wait for ready, then the register set-up.
pub open spec fn initialize_spec() -> Seq<StepSpec> {
    reset_spec() + seq![StepSpec::WaitReady(RESET_READY_TIMEOUT_MS)] + command_spec(
        0x4D,
        Some(seq![0x78u8]),
    ) + command_spec(Jd79668Commands::PanelSetting.code_spec(), Some(seq![0x0Fu8, 0x29]))
        + command_spec(
        Jd79668Commands::BoosterSoftStart.code_spec(),
        Some(seq![0x0du8, 0x12, 0x24, 0x25, 0x12, 0x29, 0x10]),
    ) + command_spec(0x30, Some(seq![0x08u8])) + command_spec(
        Jd79668Commands::VcomDataIntervalSetting.code_spec(),
        Some(seq![0x37u8]),
    ) + command_spec(
        Jd79668Commands::ResolutionSetting.code_spec(),
        Some(seq![X_ADDR_START_H, X_ADDR_START_L, Y_ADDR_START_H, Y_ADDR_START_L]),
    ) + command_spec(0xae, Some(seq![0xcfu8])) + command_spec(0xb0, Some(seq![0x13u8]))
        + command_spec(0xbd, Some(seq![0x07u8])) + command_spec(0xbe, Some(seq![0xfeu8]))
        + command_spec(0xE9, Some(seq![0x01u8]))
}

/// Showing packed pixels: transmit them, then power on, refresh, power off and deep sleep,
/// each awaited on the busy line.
pub open spec fn show_spec(packed_pixels: Seq<u8>) -> Seq<StepSpec> {
    command_spec(Jd79668Commands::DataStartTransmission.code_spec(), Some(packed_pixels))
        + command_wait_spec(Jd79668Commands::PowerOn.code_spec(), None, REFRESH_TIMEOUT_MS)
        + command_wait_spec(
        Jd79668Commands::DisplayRefresh.code_spec(),
        Some(seq![0x00u8]),
        REFRESH_TIMEOUT_MS,
    ) + command_wait_spec(Jd79668Commands::PowerOff.code_spec(), Some(seq![0x00u8]), REFRESH_TIMEOUT_MS)
        + command_wait_spec(
        Jd79668Commands::DeepSleep.code_spec(),
        Some(seq![0xa5u8]),
        REFRESH_TIMEOUT_MS,
    )
}

fn push_step(steps: &mut Vec<Step>, step: Step)
    ensures
        steps_view(final(steps)@) == steps_view(old(steps)@) + seq![step@],
{
    let ghost before = steps@;
    steps.push(step);
    assert(steps_view(steps@) =~= steps_view(before) + seq![step@]);
}

/// Appends the frames carrying `data[off..]`.
fn push_frames(steps: &mut Vec<Step>, data: &[u8], off: usize)
    requires
        off <= data@.len(),
    ensures
        steps_view(final(steps)@) == steps_view(old(steps)@) + frames_from(data@, off as nat),
    decreases data@.len() - off,
{
    let n = data.len();
    if n - off <= SPI_CHUNK_SIZE {
        let bytes = slice_to_vec(slice_subrange(data, off, n));
        push_step(steps, Step::Write { bytes });
    } else {
        let ghost before = steps_view(steps@);
        let bytes = slice_to_vec(slice_subrange(data, off, off + SPI_CHUNK_SIZE));
        push_step(steps, Step::Write { bytes });
        push_frames(steps, data, off + SPI_CHUNK_SIZE);
        assert(steps_view(steps@) =~= before + frames_from(data@, off as nat));
    }
}

/// Appends the framing of one command with an optional payload.
pub fn send_command(steps: &mut Vec<Step>, command: u8, data: Option<&[u8]>)
    ensures
        steps_view(final(steps)@) == steps_view(old(steps)@) + command_spec(command, opt_view(data)),
{
    let ghost before = steps_view(steps@);
    push_step(steps, Step::Drive { line: Line::ChipSelect, level: Level::Inactive });
    push_step(steps, Step::Drive { line: Line::DataCmd, level: Level::Inactive });
    push_step(steps, Step::Sleep { ms: LINE_SETTLE_MS });
    let mut command_byte: Vec<u8> = Vec::new();
    command_byte.push(command);
    assert(command_byte@ =~= seq![command]);
    push_step(steps, Step::Write { bytes: command_byte });
    match data {
        Some(d) => {
            push_step(steps, Step::Drive { line: Line::DataCmd, level: Level::Active });
            push_step(steps, Step::Sleep { ms: LINE_SETTLE_MS });
            push_frames(steps, d, 0);
        },
        None => {},
    }
    push_step(steps, Step::Drive { line: Line::ChipSelect, level: Level::Active });
    push_step(steps, Step::Drive { line: Line::DataCmd, level: Level::Inactive });
    assert(steps_view(steps@) =~= before + command_spec(command, opt_view(data)));
}

/// Appends a command followed by a wait on the busy line.
pub fn send_command_wait(steps: &mut Vec<Step>, command: u8, data: Option<&[u8]>, timeout_ms: u64)
    ensures
        steps_view(final(steps)@) == steps_view(old(steps)@) + command_wait_spec(
            command,
            opt_view(data),
            timeout_ms,
        ),
{
    let ghost before = steps_view(steps@);
    send_command(steps, command, data);
    push_step(steps, Step::WaitReady { timeout_ms });
    assert(steps_view(steps@) =~= before + command_wait_spec(command, opt_view(data), timeout_ms));
}

/// Whether the display has been initialized.
#[derive(Copy, Clone, Debug, PartialEq, Eq, Structural)]
pub enum DriverState {
    Uninitialized,
    Initialized,
}

/// Model of an [`InkyJd79668`].
pub struct DriverView {
    pub display_res: Resolution,
    pub state: DriverState,
}

/// What showing an image on a display in state `d` comes to: the steps to perform, or the
/// error that stops it before any step.
pub open spec fn show_outcome(d: DriverView, img: crate::image::InkyImageView) -> Result<
    Seq<StepSpec>,
    InkyError,
> {
    let found = Resolution { width: img.index.width, height: img.index.height };
    if d.state != DriverState::Initialized {
        Err(InkyError::Uninitialized)
    } else if found != d.display_res {
        Err(InkyError::UnsupportedResolution { expected: d.display_res, found })
    } else if !fits_wire(img.index.pixels) {
        Err(InkyError::InvalidPalettization { index_min: 0, index_max: MAX_WIRE_INDEX })
    } else {
        Ok(show_spec(packed(img.index.pixels)))
    }
}

pub open spec fn plan_view(r: InkyResult<Vec<Step>>) -> Result<Seq<StepSpec>, InkyError> {
    match r {
        Ok(steps) => Ok(steps_view(steps@)),
        Err(e) => Err(e),
    }
}

/// The protocol side of a JD79668 display: its resolution, whether it has been
/// initialized, and the steps each operation takes on the hardware.
pub struct InkyJd79668 {
    display_res: Resolution,
    state: DriverState,
}

impl View for InkyJd79668 {
    type V = DriverView;

    closed spec fn view(&self) -> DriverView {
        DriverView { display_res: self.display_res, state: self.state }
    }
}

impl InkyJd79668 {
    /// Packs an index image into the 2-bit-per-pixel wire format, failing if any pixel is
    /// above 3.
    pub fn pack_buffer(pixels: &[u8]) -> (r: InkyResult<Vec<u8>>)
        ensures
            fits_wire(pixels@) ==> r is Ok && r->Ok_0@ == packed(pixels@),
            !fits_wire(pixels@) ==> r == Err::<Vec<u8>, InkyError>(
                InkyError::InvalidPalettization { index_min: 0, index_max: MAX_WIRE_INDEX },
            ),
    {
        let n: usize = pixels.len();
        let mut i: usize = 0;
        while i < n
            invariant
                n == pixels@.len(),
                i <= n,
                forall|j: int| 0 <= j < i ==> #[trigger] pixels@[j] <= MAX_WIRE_INDEX,
            decreases n - i,
        {
            if pixels[i] as usize > MAX_WIRE_INDEX {
                return Err(InkyError::InvalidPalettization { index_min: 0, index_max: MAX_WIRE_INDEX });
            }
            i = i + 1;
        }
        let groups: usize = n / 4 + if n % 4 == 0 {
            0
        } else {
            1
        };
        assert(groups == packed_len(n as nat));
        let mut out: Vec<u8> = Vec::new();
        let mut j: usize = 0;
        while j < groups
            invariant
                n == pixels@.len(),
                groups == packed_len(n as nat),
                fits_wire(pixels@),
                j <= groups,
                out@ == packed(pixels@).take(j as int),
            decreases groups - j,
        {
            let base: usize = 4 * j;
            let pix0 = pixel_at(pixels, base, 0);
            let pix1 = pixel_at(pixels, base, 1);
            let pix2 = pixel_at(pixels, base, 2);
            let pix3 = pixel_at(pixels, base, 3);
            let byte: u8 = pix0 * 64 + pix1 * 16 + pix2 * 4 + pix3;
            out.push(byte);
            j = j + 1;
            assert(out@ =~= packed(pixels@).take(j as int));
        }
        assert(packed(pixels@).take(groups as int) =~= packed(pixels@));
        Ok(out)
    }

    /// A display of the given resolution, not yet initialized.
    pub fn new(display_res: Resolution) -> (r: Self)
        ensures
            r@ == (DriverView { display_res, state: DriverState::Uninitialized }),
    {
        InkyJd79668 { display_res, state: DriverState::Uninitialized }
    }

    pub fn display_res(&self) -> (r: Resolution)
        ensures
            r == self@.display_res,
    {
        self.display_res
    }

    pub fn state(&self) -> (r: DriverState)
        ensures
            r == self@.state,
    {
        self.state
    }

    /// The steps of a hardware reset.
    pub fn hardware_reset(&self) -> (r: Vec<Step>)
        ensures
            steps_view(r@) == reset_spec(),
    {
        let mut steps: Vec<Step> = Vec::new();
        push_step(&mut steps, Step::Drive { line: Line::Reset, level: Level::Inactive });
        push_step(&mut steps, Step::Sleep { ms: RESET_HOLD_MS });
        push_step(&mut steps, Step::Drive { line: Line::Reset, level: Level::Active });
        push_step(&mut steps, Step::Sleep { ms: RESET_HOLD_MS });
        assert(steps_view(steps@) =~= reset_spec());
        steps
    }

    /// The steps of the initialisation sequence. Once they have all been performed, or one
    /// has failed, report the outcome to [`Self::complete_initialize`].
    pub fn initialize(&self) -> (r: Vec<Step>)
        ensures
            steps_view(r@) == initialize_spec(),
    {
        let mut steps = self.hardware_reset();
        push_step(&mut steps, Step::WaitReady { timeout_ms: RESET_READY_TIMEOUT_MS });
        let d0: [u8; 1] = [0x78];
        send_command(&mut steps, 0x4D, Some(d0.as_slice()));
        let d1: [u8; 2] = [0x0F, 0x29];
        send_command(&mut steps, Jd79668Commands::PanelSetting.code(), Some(d1.as_slice()));
        let d2: [u8; 7] = [0x0d, 0x12, 0x24, 0x25, 0x12, 0x29, 0x10];
        send_command(&mut steps, Jd79668Commands::BoosterSoftStart.code(), Some(d2.as_slice()));
        let d3: [u8; 1] = [0x08];
        send_command(&mut steps, 0x30, Some(d3.as_slice()));
        let d4: [u8; 1] = [0x37];
        send_command(&mut steps, Jd79668Commands::VcomDataIntervalSetting.code(), Some(d4.as_slice()));
        let d5: [u8; 4] = [X_ADDR_START_H, X_ADDR_START_L, Y_ADDR_START_H, Y_ADDR_START_L];
        send_command(&mut steps, Jd79668Commands::ResolutionSetting.code(), Some(d5.as_slice()));
        let d6: [u8; 1] = [0xcf];
        send_command(&mut steps, 0xae, Some(d6.as_slice()));
        let d7: [u8; 1] = [0x13];
        send_command(&mut steps, 0xb0, Some(d7.as_slice()));
        let d8: [u8; 1] = [0x07];
        send_command(&mut steps, 0xbd, Some(d8.as_slice()));
        let d9: [u8; 1] = [0xfe];
        send_command(&mut steps, 0xbe, Some(d9.as_slice()));
        let d10: [u8; 1] = [0x01];
        send_command(&mut steps, 0xE9, Some(d10.as_slice()));
        assert(d0@ =~= seq![0x78u8]);
        assert(d1@ =~= seq![0x0Fu8, 0x29]);
        assert(d2@ =~= seq![0x0du8, 0x12, 0x24, 0x25, 0x12, 0x29, 0x10]);
        assert(d3@ =~= seq![0x08u8]);
        assert(d4@ =~= seq![0x37u8]);
        assert(d5@ =~= seq![X_ADDR_START_H, X_ADDR_START_L, Y_ADDR_START_H, Y_ADDR_START_L]);
        assert(d6@ =~= seq![0xcfu8]);
        assert(d7@ =~= seq![0x13u8]);
        assert(d8@ =~= seq![0x07u8]);
        assert(d9@ =~= seq![0xfeu8]);
        assert(d10@ =~= seq![0x01u8]);
        assert(steps_view(steps@) =~= initialize_spec());
        steps
    }

    /// Records how the initialisation sequence went: the display is initialized exactly
    /// when every step succeeded.
    pub fn complete_initialize(&mut self, succeeded: bool)
        ensures
            final(self)@.display_res == old(self)@.display_res,
            final(self)@.state == (if succeeded {
                DriverState::Initialized
            } else {
                DriverState::Uninitialized
            }),
    {
        self.state = if succeeded {
            DriverState::Initialized
        } else {
            DriverState::Uninitialized
        };
    }

    /// The steps that show `img`: fails if the display is uninitialized, if the image is
    /// not of the display's resolution, or if a pixel does not fit the wire format.
    pub fn show(&self, img: &InkyImage) -> (r: InkyResult<Vec<Step>>)
        ensures
            plan_view(r) == show_outcome(self@, img@),
    {
        if self.state != DriverState::Initialized {
            return Err(InkyError::Uninitialized);
        }
        let img_res = img.resolution();
        if img_res != self.display_res {
            return Err(InkyError::UnsupportedResolution { expected: self.display_res, found: img_res });
        }
        let index_img = img.index_img();
        let packed_pixels = Self::pack_buffer(index_img.as_slice())?;
        let mut steps: Vec<Step> = Vec::new();
        send_command(
            &mut steps,
            Jd79668Commands::DataStartTransmission.code(),
            Some(packed_pixels.as_slice()),
        );
        send_command_wait(&mut steps, Jd79668Commands::PowerOn.code(), None, REFRESH_TIMEOUT_MS);
        let refresh: [u8; 1] = [0x00];
        send_command_wait(
            &mut steps,
            Jd79668Commands::DisplayRefresh.code(),
            Some(refresh.as_slice()),
            REFRESH_TIMEOUT_MS,
        );
        let power_off: [u8; 1] = [0x00];
        send_command_wait(
            &mut steps,
            Jd79668Commands::PowerOff.code(),
            Some(power_off.as_slice()),
            REFRESH_TIMEOUT_MS,
        );
        let sleep: [u8; 1] = [0xa5];
        send_command_wait(
            &mut steps,
            Jd79668Commands::DeepSleep.code(),
            Some(sleep.as_slice()),
            REFRESH_TIMEOUT_MS,
        );
        assert(refresh@ =~= seq![0x00u8]);
        assert(power_off@ =~= seq![0x00u8]);
        assert(sleep@ =~= seq![0xa5u8]);
        assert(steps_view(steps@) =~= show_spec(packed(img@.index.pixels)));
        Ok(steps)
    }
}

/// Showing any image on a display that has not been initialized fails with
/// [`InkyError::Uninitialized`], before any step is taken.
pub proof fn lemma_show_requires_initialize(display_res: Resolution, img: crate::image::InkyImageView)
    ensures
        show_outcome(DriverView { display_res, state: DriverState::Uninitialized }, img) == Err::<
            Seq<StepSpec>,
            InkyError,
        >(InkyError::Uninitialized),
{
}

/// What to do next while waiting on the busy line.
#[derive(Copy, Clone, Debug, PartialEq, Eq, Structural)]
pub enum BusyPoll {
    /// Read the busy line and report the level.
    ReadLine,
    /// The display is busy: sleep this many milliseconds, then ask again without a reading.
    Sleep { ms: u64 },
    /// The display is ready.
    Ready,
}

/// One decision of the busy wait, given the milliseconds elapsed since it began, its
/// timeout, and the level just read, if any. An active line means ready at once, with no
/// extra delay; without a reading the line is read again only while time remains.
pub fn busy_wait_step(elapsed_ms: u64, timeout_ms: u64, reading: Option<Level>) -> (r: InkyResult<
    BusyPoll,
>)
    ensures
        reading == Some(Level::Active) ==> r == Ok::<BusyPoll, InkyError>(BusyPoll::Ready),
        reading == Some(Level::Inactive) ==> r == Ok::<BusyPoll, InkyError>(
            BusyPoll::Sleep { ms: BUSY_POLL_MS },
        ),
        reading is None && elapsed_ms < timeout_ms ==> r == Ok::<BusyPoll, InkyError>(
            BusyPoll::ReadLine,
        ),
        reading is None && elapsed_ms >= timeout_ms ==> r == Err::<BusyPoll, InkyError>(
            InkyError::BusyTimeout { timeout_ms },
        ),
{
    match reading {
        Some(Level::Active) => Ok(BusyPoll::Ready),
        Some(Level::Inactive) => Ok(BusyPoll::Sleep { ms: BUSY_POLL_MS }),
        None => {
            if elapsed_ms < timeout_ms {
                Ok(BusyPoll::ReadLine)
            } else {
                Err(InkyError::BusyTimeout { timeout_ms })
            }
        },
    }
}

} // verus!
