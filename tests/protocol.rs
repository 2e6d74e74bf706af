use libtatted::jd79668::{send_command, send_command_wait};
use libtatted::{
    busy_wait_step, BusyPoll, DriverState, ImagePreProcessor, InkyError,
    InkyFourColorMap, InkyImage, InkyJd79668, IndexImage, Jd79668Commands, Level, Line, Resolution,
    Rgb, RgbImage, Step,
};

fn drive(line: Line, level: Level) -> Step {
    Step::Drive { line, level }
}

fn solid(res: Resolution) -> InkyImage {
    ImagePreProcessor::new(InkyFourColorMap, res).new_color(Rgb::new(255, 255, 255)).unwrap()
}

#[test]
fn pack_four_indices_into_one_byte() {
    assert_eq!(InkyJd79668::pack_buffer(&[0, 1, 2, 3]), Ok(vec![0b0001_1011]));
    assert_eq!(InkyJd79668::pack_buffer(&[0, 1, 2, 3]), Ok(vec![0x1B]));
}

#[test]
fn pack_pads_a_partial_group_with_zeros() {
    assert_eq!(InkyJd79668::pack_buffer(&[1]), Ok(vec![0b0100_0000]));
    assert_eq!(InkyJd79668::pack_buffer(&[3, 3, 3, 3, 2, 1]), Ok(vec![0xFF, 0b1001_0000]));
    assert_eq!(InkyJd79668::pack_buffer(&[]), Ok(vec![]));
}

#[test]
fn pack_rejects_indices_outside_the_wire_format() {
    let err = InkyError::InvalidPalettization { index_min: 0, index_max: 3 };
    assert_eq!(InkyJd79668::pack_buffer(&[4]), Err(err));
    assert_eq!(InkyJd79668::pack_buffer(&[0, 1, 2, 3, 255]), Err(err));
}

#[test]
fn pack_accepts_monochrome_indices() {
    assert_eq!(InkyJd79668::pack_buffer(&[1, 0, 1, 1]), Ok(vec![0b0100_0101]));
}

#[test]
fn show_before_initialize_fails() {
    let display = InkyJd79668::new(Resolution::new(4, 2));
    assert_eq!(display.state(), DriverState::Uninitialized);
    assert_eq!(display.show(&solid(Resolution::new(4, 2))), Err(InkyError::Uninitialized));
    assert_eq!(display.show(&solid(Resolution::new(1, 1))), Err(InkyError::Uninitialized));
}

#[test]
fn show_rejects_other_resolutions() {
    let mut display = InkyJd79668::new(Resolution::new(4, 2));
    display.complete_initialize(true);
    assert_eq!(
        display.show(&solid(Resolution::new(2, 4))),
        Err(InkyError::UnsupportedResolution {
            expected: Resolution::new(4, 2),
            found: Resolution::new(2, 4)
        })
    );
}

#[test]
fn show_rejects_out_of_palette_pixels() {
    let mut display = InkyJd79668::new(Resolution::new(2, 1));
    display.complete_initialize(true);
    let index = IndexImage::from_raw(2, 1, vec![0, 7]).unwrap();
    let pixels = RgbImage::from_raw(2, 1, vec![Rgb::new(0, 0, 0); 2]).unwrap();
    assert_eq!(
        display.show(&InkyImage::new(index, pixels)),
        Err(InkyError::InvalidPalettization { index_min: 0, index_max: 3 })
    );
}

#[test]
fn failed_initialization_leaves_the_display_uninitialized() {
    let mut display = InkyJd79668::new(Resolution::new(4, 2));
    display.complete_initialize(false);
    assert_eq!(display.state(), DriverState::Uninitialized);
    display.complete_initialize(true);
    assert_eq!(display.state(), DriverState::Initialized);
    display.complete_initialize(false);
    assert_eq!(display.state(), DriverState::Uninitialized);
}

#[test]
fn show_sequence_is_transmit_then_power_cycle() {
    let mut display = InkyJd79668::new(Resolution::new(4, 2));
    display.complete_initialize(true);
    let steps = display.show(&solid(Resolution::new(4, 2))).unwrap();
    let mut expected = Vec::new();
    send_command(&mut expected, 0x10, Some(&[0x55, 0x55]));
    send_command_wait(&mut expected, 0x04, None, 40000);
    send_command_wait(&mut expected, 0x12, Some(&[0x00]), 40000);
    send_command_wait(&mut expected, 0x02, Some(&[0x00]), 40000);
    send_command_wait(&mut expected, 0x07, Some(&[0xa5]), 40000);
    assert_eq!(steps, expected);
    let waits: Vec<u64> = steps
        .iter()
        .filter_map(|s| match s {
            Step::WaitReady { timeout_ms } => Some(*timeout_ms),
            _ => None,
        })
        .collect();
    assert_eq!(waits, vec![40000; 4]);
}

#[test]
fn command_framing() {
    let mut steps = Vec::new();
    send_command(&mut steps, 0x61, Some(&[0x01, 0x90, 0x01, 0x2C]));
    assert_eq!(
        steps,
        vec![
            drive(Line::ChipSelect, Level::Inactive),
            drive(Line::DataCmd, Level::Inactive),
            Step::Sleep { ms: 300 },
            Step::Write { bytes: vec![0x61] },
            drive(Line::DataCmd, Level::Active),
            Step::Sleep { ms: 300 },
            Step::Write { bytes: vec![0x01, 0x90, 0x01, 0x2C] },
            drive(Line::ChipSelect, Level::Active),
            drive(Line::DataCmd, Level::Inactive),
        ]
    );
    let mut bare = Vec::new();
    send_command(&mut bare, 0x04, None);
    assert_eq!(bare.len(), 6);
    assert_eq!(bare[3], Step::Write { bytes: vec![0x04] });
}

#[test]
fn large_payloads_are_chunked() {
    let data: Vec<u8> = (0..10000u32).map(|i| i as u8).collect();
    let mut steps = Vec::new();
    send_command(&mut steps, 0x10, Some(&data));
    let frames: Vec<usize> = steps[4..]
        .iter()
        .filter_map(|s| match s {
            Step::Write { bytes } => Some(bytes.len()),
            _ => None,
        })
        .collect();
    assert_eq!(frames, vec![4096, 4096, 1808]);
    let mut exact = Vec::new();
    send_command(&mut exact, 0x10, Some(&data[..4096]));
    assert_eq!(exact.len(), 9);
}

#[test]
fn reset_and_initialize_sequences() {
    let display = InkyJd79668::new(Resolution::new(400, 300));
    let reset = display.hardware_reset();
    assert_eq!(
        reset,
        vec![
            drive(Line::Reset, Level::Inactive),
            Step::Sleep { ms: 100 },
            drive(Line::Reset, Level::Active),
            Step::Sleep { ms: 100 },
        ]
    );
    let init = display.initialize();
    assert_eq!(&init[..4], &reset[..]);
    assert_eq!(init[4], Step::WaitReady { timeout_ms: 1000 });
    assert_eq!(init[8], Step::Write { bytes: vec![0x4D] });
    assert_eq!(init[11], Step::Write { bytes: vec![0x78] });
    // eleven commands of nine steps each follow the reset and the wait
    assert_eq!(init.len(), 5 + 11 * 9);
    assert_eq!(init[init.len() - 3], Step::Write { bytes: vec![0x01] });
}

#[test]
fn command_codes() {
    assert_eq!(Jd79668Commands::PanelSetting.code(), 0x00);
    assert_eq!(Jd79668Commands::DataStartTransmission.code(), 0x10);
    assert_eq!(Jd79668Commands::ResolutionSetting.code(), 0x61);
    assert_eq!(Jd79668Commands::VcomDataIntervalSetting.code(), 0x50);
}

#[test]
fn busy_wait_decisions() {
    assert_eq!(busy_wait_step(0, 1000, None), Ok(BusyPoll::ReadLine));
    assert_eq!(busy_wait_step(0, 1000, Some(Level::Active)), Ok(BusyPoll::Ready));
    assert_eq!(busy_wait_step(5, 1000, Some(Level::Inactive)), Ok(BusyPoll::Sleep { ms: 10 }));
    assert_eq!(busy_wait_step(999, 1000, None), Ok(BusyPoll::ReadLine));
    assert_eq!(busy_wait_step(1000, 1000, None), Err(InkyError::BusyTimeout { timeout_ms: 1000 }));
    assert_eq!(busy_wait_step(0, 0, None), Err(InkyError::BusyTimeout { timeout_ms: 0 }));
}
