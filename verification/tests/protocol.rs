use laser_sweep::cld1015::{
    current_mode_command, error_query, idn_query, laser_enable_decision, laser_output_command,
    laser_state_query, opc_query, reset_command, reset_verify, set_current_command,
    tec_on_command, tec_state_query, CLD1015Error,
};
use laser_sweep::mpm210h::{
    averaging_command, measurement_mode_command, modules_query, port_power_from_response,
    read_power_command, unit_command, wavelength_command, zero_command, MPM210HError,
};
use laser_sweep::numfmt::{scaled_string, u64_string};
use laser_sweep::text::{mpm_queue_empty, parse_on_off, trim_str};

#[test]
fn fixed_laser_commands() {
    assert_eq!(idn_query(), "*IDN?");
    assert_eq!(tec_on_command(), "OUTPut2:STATe ON");
    assert_eq!(tec_state_query(), "OUTPut2:STATe?");
    assert_eq!(current_mode_command(), "SOURce:FUNCtion:MODE CURRent");
    assert_eq!(laser_state_query(), "OUTPut:STATe?");
    assert_eq!(laser_output_command(true), "OUTPut:STATe ON");
    assert_eq!(laser_output_command(false), "OUTPut:STATe OFF");
    assert_eq!(error_query(), "SYST:ERR?");
    assert_eq!(reset_command(), "*RST");
    assert_eq!(opc_query(), "*OPC?");
}

#[test]
fn fixed_meter_commands() {
    assert_eq!(modules_query(), "IDIS?");
    assert_eq!(zero_command(), "ZERO");
    assert_eq!(read_power_command(0), "READ? 0");
    assert_eq!(read_power_command(3), "READ? 3");
    assert_eq!(wavelength_command(980), "WAV 980");
    assert_eq!(measurement_mode_command("CONST1"), "WMOD CONST1");
}

#[test]
fn averaging_command_prints_milliseconds() {
    assert_eq!(averaging_command(100_000), "AVG 100");
    assert_eq!(averaging_command(2_500), "AVG 2.5");
    assert_eq!(averaging_command(0), "AVG 0");
    assert_eq!(averaging_command(50), "AVG 0.05");
}

#[test]
fn unit_command_validates_code() {
    assert_eq!(unit_command(0).unwrap(), "UNIT 0");
    assert_eq!(unit_command(1).unwrap(), "UNIT 1");
    assert!(matches!(unit_command(2), Err(MPM210HError::ParseError)));
}

#[test]
fn set_current_below_ceiling_builds_amp_command() {
    assert_eq!(
        set_current_command(10_000).unwrap(),
        "SOURce:CURRent:LEVel:IMMediate:AMPLitude 0.01"
    );
    assert_eq!(
        set_current_command(1_500_000).unwrap(),
        "SOURce:CURRent:LEVel:IMMediate:AMPLitude 1.5"
    );
    assert_eq!(set_current_command(0).unwrap(), "SOURce:CURRent:LEVel:IMMediate:AMPLitude 0");
    assert_eq!(
        set_current_command(-2_500).unwrap(),
        "SOURce:CURRent:LEVel:IMMediate:AMPLitude -0.0025"
    );
}

#[test]
fn set_current_above_ceiling_fails() {
    assert!(matches!(
        set_current_command(1_500_001),
        Err(CLD1015Error::CurrentAboveLimit)
    ));
    assert!(matches!(
        set_current_command(2_000_000),
        Err(CLD1015Error::CurrentAboveLimit)
    ));
}

#[test]
fn laser_enable_requires_tec_on() {
    assert_eq!(laser_enable_decision("ON").unwrap(), "OUTPut:STATe ON");
    assert_eq!(laser_enable_decision("on").unwrap(), "OUTPut:STATe ON");
    assert_eq!(laser_enable_decision("1").unwrap(), "OUTPut:STATe ON");
    assert!(matches!(laser_enable_decision("OFF"), Err(CLD1015Error::TecOff)));
    assert!(matches!(laser_enable_decision("0"), Err(CLD1015Error::TecOff)));
    assert!(matches!(laser_enable_decision(""), Err(CLD1015Error::TecOff)));
}

#[test]
fn reset_verify_accepts_only_one() {
    assert!(reset_verify("1").is_ok());
    match reset_verify("0") {
        Err(CLD1015Error::ResetIncomplete(s)) => assert_eq!(s, "0"),
        other => panic!("expected ResetIncomplete, got {:?}", other),
    }
    assert!(reset_verify("+1").is_err());
    assert!(reset_verify("").is_err());
    assert!(reset_verify("11").is_err());
}

#[test]
fn on_off_parsing() {
    assert!(parse_on_off("ON"));
    assert!(parse_on_off("on"));
    assert!(parse_on_off("oN"));
    assert!(parse_on_off("1"));
    assert!(!parse_on_off("OFF"));
    assert!(!parse_on_off("0"));
    assert!(!parse_on_off("ONN"));
    assert!(!parse_on_off(""));
}

#[test]
fn port_power_picks_the_right_field() {
    let resp = "-12.3,-5.0,-8.1,-20.0";
    assert_eq!(port_power_from_response(resp, 1).unwrap(), "-12.3");
    assert_eq!(port_power_from_response(resp, 2).unwrap(), "-5.0");
    assert_eq!(port_power_from_response(resp, 4).unwrap(), "-20.0");
}

#[test]
fn port_power_trims_whitespace() {
    assert_eq!(port_power_from_response(" -12.3 , -5.0 ", 2).unwrap(), "-5.0");
}

#[test]
fn port_power_fails_on_short_response() {
    assert!(matches!(
        port_power_from_response("-12.3,-5.0", 3),
        Err(MPM210HError::ParseError)
    ));
    assert!(matches!(port_power_from_response("", 2), Err(MPM210HError::ParseError)));
}

#[test]
fn port_power_fails_on_bad_port() {
    assert!(matches!(
        port_power_from_response("-12.3,-5.0,-8.1,-20.0", 0),
        Err(MPM210HError::ParseError)
    ));
    assert!(matches!(
        port_power_from_response("-12.3,-5.0,-8.1,-20.0", 5),
        Err(MPM210HError::ParseError)
    ));
}

#[test]
fn decimal_renderings() {
    assert_eq!(u64_string(0), "0");
    assert_eq!(u64_string(980), "980");
    assert_eq!(u64_string(10), "10");
    assert_eq!(scaled_string(10_000, 6), "0.01");
    assert_eq!(scaled_string(15_000, 6), "0.015");
    assert_eq!(scaled_string(20_000, 6), "0.02");
    assert_eq!(scaled_string(1_500_000, 6), "1.5");
    assert_eq!(scaled_string(-1_500, 3), "-1.5");
    assert_eq!(scaled_string(100_000, 3), "100");
    assert_eq!(scaled_string(0, 3), "0");
}

#[test]
fn trimming() {
    assert_eq!(trim_str("  a b \r\n"), "a b");
    assert_eq!(trim_str(""), "");
    assert_eq!(trim_str(" \t "), "");
    assert_eq!(trim_str("x"), "x");
}

#[test]
fn meter_queue_empty_detection() {
    assert!(mpm_queue_empty("0"));
    assert!(mpm_queue_empty("  0,all clear"));
    assert!(mpm_queue_empty("No Error"));
    assert!(mpm_queue_empty("-100, NO ERROR in queue"));
    assert!(!mpm_queue_empty("-100, device fault"));
    assert!(!mpm_queue_empty("ERR 12"));
}
