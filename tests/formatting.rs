use labsweep::{
    decimal, fixed_point, frame_command, laser_output_command, read_power_command,
    set_current_command, set_wavelength_command, socket_address, tec_output_command,
    MPM210HError,
};

#[test]
fn decimal_renders_integers() {
    assert_eq!(decimal(0), "0");
    assert_eq!(decimal(7), "7");
    assert_eq!(decimal(980), "980");
    assert_eq!(decimal(18446744073709551615), "18446744073709551615");
}

#[test]
fn fixed_point_trims_the_fraction() {
    assert_eq!(fixed_point(5000, 6), "0.005");
    assert_eq!(fixed_point(0, 6), "0");
    assert_eq!(fixed_point(7000, 3), "7");
    assert_eq!(fixed_point(-1500, 3), "-1.5");
    assert_eq!(fixed_point(1234567, 6), "1.234567");
    assert_eq!(fixed_point(10, 3), "0.01");
    assert_eq!(fixed_point(120, 0), "120");
    assert_eq!(fixed_point(i64::MIN, 18), "-9.223372036854775808");
}

#[test]
fn current_source_commands() {
    assert_eq!(set_current_command(5000), "SOURce:CURRent:LEVel:IMMediate:AMPLitude 0.005");
    assert_eq!(set_current_command(0), "SOURce:CURRent:LEVel:IMMediate:AMPLitude 0");
    assert_eq!(set_current_command(125500), "SOURce:CURRent:LEVel:IMMediate:AMPLitude 0.1255");
    assert_eq!(laser_output_command(true), "OUTPut:STATe ON");
    assert_eq!(laser_output_command(false), "OUTPut:STATe OFF");
    assert_eq!(tec_output_command(true), "OUTPut2:STATe ON");
    assert_eq!(tec_output_command(false), "OUTPut2:STATe OFF");
}

#[test]
fn power_meter_commands() {
    assert_eq!(read_power_command(1), "READ? 1");
    assert_eq!(read_power_command(255), "READ? 255");
    assert_eq!(set_wavelength_command(980), "WAV 980");
    assert_eq!(socket_address("192.168.1.161", 5000), "192.168.1.161:5000");
}

#[test]
fn commands_are_newline_terminated() {
    assert_eq!(frame_command("*IDN?"), "*IDN?\n");
    assert_eq!(frame_command(""), "\n");
}

#[test]
fn device_error_messages() {
    assert_eq!(MPM210HError::NotConnected.message(), "Device not connected");
    assert_eq!(MPM210HError::IoError("timed out".to_string()).message(), "IO error: timed out");
    assert_eq!(
        MPM210HError::ParseError("invalid socket address syntax".to_string()).message(),
        "Parse error: invalid socket address syntax"
    );
}
