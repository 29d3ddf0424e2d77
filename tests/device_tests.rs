use reflow_controller::mcp9600::{raw_to_millidegrees, Error as SensorError, Mcp9600, SensorFault};
use reflow_controller::relay::{
    decode_status, needs_toggle, pwm_register, status_command, toggle_command, Error as RelayError,
    RelayCommand, RelayStatus,
};

#[test]
fn parse_temp16_positive() {
    let bytes = [0x00, 0x80];
    assert_eq!(Mcp9600::parse_temp16(&bytes), Some(128));
}

#[test]
fn parse_temp16_negative() {
    let bytes = [0xFF, 0x80];
    assert_eq!(Mcp9600::parse_temp16(&bytes), Some(-128));
}

#[test]
fn parse_temp16_zero() {
    let bytes = [0x00, 0x00];
    assert_eq!(Mcp9600::parse_temp16(&bytes), Some(0));
}

#[test]
fn parse_temp16_wrong_length() {
    assert_eq!(Mcp9600::parse_temp16(&[0x01]), None);
    assert_eq!(Mcp9600::parse_temp16(&[0x01, 0x02, 0x03]), None);
}

#[test]
fn register_units_to_millidegrees() {
    assert_eq!(raw_to_millidegrees(128), 8_000);
    assert_eq!(raw_to_millidegrees(-128), -8_000);
    assert_eq!(raw_to_millidegrees(1), 62);
    assert_eq!(raw_to_millidegrees(-1), -63);
}

#[test]
fn parse_all_registers() {
    let temps = Mcp9600::parse_all::<()>(&[0x0F, 0xA0, 0x00, 0x10, 0x01, 0x90]).unwrap();
    assert_eq!(temps.th_c, 250_000);
    assert_eq!(temps.delta_c, 1_000);
    assert_eq!(temps.tc_c, 25_000);
    assert!(matches!(Mcp9600::parse_all::<()>(&[0; 4]), Err(SensorError::DataFormat)));
}

#[test]
fn device_id_check() {
    let m = Mcp9600::new(0x60);
    assert_eq!(m.addr, 0x60);
    assert_eq!(Mcp9600::check_id_revision::<()>(&[0x40, 0x21]).unwrap(), (0x40, 0x21));
    assert!(matches!(Mcp9600::check_id_revision::<()>(&[0x41, 0x21]), Err(SensorError::BadDeviceId)));
    assert!(matches!(Mcp9600::check_id_revision::<()>(&[0x40]), Err(SensorError::DataFormat)));
}

#[test]
fn sensor_fault_flags() {
    let f = SensorFault::from_bits_truncate(0xE3);
    assert_eq!(f.bits, 0x03);
    assert!(f.contains(SensorFault::INPUT_RANGE));
    assert!(f.contains(SensorFault::ALERT1));
    assert!(!f.contains(SensorFault::ALERT2));
    assert!(SensorFault::from_bits_truncate(0xE0).is_empty());
}

#[test]
fn relay_command_codes() {
    assert_eq!(RelayCommand::RelayAllOff.code(), 0x0A);
    assert_eq!(RelayCommand::RelayAllOn.code(), 0x0B);
    assert_eq!(toggle_command::<()>(3).unwrap(), RelayCommand::RelayThreeToggle);
    assert_eq!(status_command::<()>(1).unwrap().code(), 0x05);
    assert_eq!(pwm_register::<()>(4).unwrap(), 0x13);
    assert!(matches!(toggle_command::<()>(0), Err(RelayError::InvalidRelayNumber)));
    assert!(matches!(status_command::<()>(5), Err(RelayError::InvalidRelayNumber)));
    assert!(matches!(pwm_register::<()>(9), Err(RelayError::InvalidRelayNumber)));
}

#[test]
fn relay_status_decoding() {
    assert_eq!(decode_status::<()>(0x00).unwrap(), RelayStatus::Off);
    assert_eq!(decode_status::<()>(0x0F).unwrap(), RelayStatus::On);
    assert!(matches!(decode_status::<()>(0x07), Err(RelayError::UnknownStatus(0x07))));
    assert!(needs_toggle(RelayStatus::Off, true));
    assert!(!needs_toggle(RelayStatus::On, true));
    assert!(needs_toggle(RelayStatus::On, false));
}
