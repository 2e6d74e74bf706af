use libtatted::{
    classify_eeprom, classify_io_failure, handle_errno, handle_io_error, is_blank_eeprom,
    parse_eeprom, DisplaySpec, EepromInfo, I2cProbeStatus, IoErrorKind,
};

fn record(width: u16, height: u16, color: u8, pcb: u8, variant: u8) -> [u8; 29] {
    let mut buf = [0u8; 29];
    buf[0..2].copy_from_slice(&width.to_le_bytes());
    buf[2..4].copy_from_slice(&height.to_le_bytes());
    buf[4] = color;
    buf[5] = pcb;
    buf[6] = variant;
    buf
}

#[test]
fn all_zero_record_is_blank() {
    assert_eq!(classify_eeprom(&[0u8; 29]), I2cProbeStatus::Blank);
    assert_eq!(classify_eeprom(&[0xFFu8; 29]), I2cProbeStatus::Blank);
    let mut mixed = [0xFFu8; 29];
    mixed[3] = 0;
    assert!(is_blank_eeprom(&mixed));
    mixed[28] = 1;
    assert!(!is_blank_eeprom(&mixed));
}

#[test]
fn unprogrammed_variant_is_invalid() {
    assert_eq!(
        classify_eeprom(&record(400, 300, 5, 12, 0xFF)),
        I2cProbeStatus::Invalid("display variant invalid (255)".to_string())
    );
}

#[test]
fn zero_width_is_invalid() {
    assert_eq!(
        classify_eeprom(&record(0, 300, 5, 12, 24)),
        I2cProbeStatus::Invalid("width/height out of range (width=0, height=300)".to_string())
    );
    assert_eq!(
        parse_eeprom(&record(400, 65535, 5, 12, 24)),
        Err("width/height out of range (width=400, height=65535)".to_string())
    );
}

#[test]
fn jd79668_record_gives_its_resolution() {
    let status = classify_eeprom(&record(400, 300, 5, 12, 24));
    let info = EepromInfo { width: 400, height: 300, color: 5, pcb_variant: 12, display_variant: 24 };
    assert_eq!(status, I2cProbeStatus::Found(info));
    assert_eq!(info.display_spec(), Some(DisplaySpec::Jd79668 { width: 400, height: 300 }));
    assert_eq!(info.variant_name(), "Red/Yellow wHAT (JD79668)");
}

#[test]
fn other_variants_parse_without_a_display_spec() {
    let info = parse_eeprom(&record(600, 448, 7, 10, 14)).unwrap();
    assert_eq!(info.display_spec(), None);
    assert_eq!(info.variant_name(), "7-Colour (UC8159) 600x448");
    let unknown = EepromInfo { display_variant: 9, ..info };
    assert_eq!(unknown.variant_name(), "Unknown");
    let past_table = EepromInfo { display_variant: 25, ..info };
    assert_eq!(past_table.variant_name(), "Unknown");
    assert_eq!(past_table.display_spec(), None);
}

#[test]
fn io_failures_are_classified() {
    assert_eq!(classify_io_failure(IoErrorKind::NotFound, "gone".to_string()), I2cProbeStatus::Unavailable);
    assert_eq!(
        classify_io_failure(IoErrorKind::PermissionDenied, "no".to_string()),
        I2cProbeStatus::Unavailable
    );
    assert_eq!(
        classify_io_failure(IoErrorKind::Other, "bus fault".to_string()),
        I2cProbeStatus::Error("bus fault".to_string())
    );
    let missing = std::io::Error::new(std::io::ErrorKind::NotFound, "no such device");
    assert_eq!(handle_io_error(missing), I2cProbeStatus::Unavailable);
    let other = std::io::Error::new(std::io::ErrorKind::Other, "remote i/o error");
    assert_eq!(handle_io_error(other), I2cProbeStatus::Error("remote i/o error".to_string()));
    assert_eq!(handle_errno(2), I2cProbeStatus::Unavailable);
    assert_eq!(handle_errno(13), I2cProbeStatus::Unavailable);
    assert!(matches!(handle_errno(5), I2cProbeStatus::Error(_)));
}
