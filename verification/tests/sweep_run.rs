use laser_sweep::sweep::{
    Action, CurrentSweepConfig, Event, Phase, PowerUnit, SweepError, SweepSession,
};

fn sent_ok() -> Event {
    Event::Sent(Ok(()))
}

fn reply(s: &str) -> Event {
    Event::Reply(Ok(s.to_string()))
}

fn expect_send_laser(a: &Action, cmd: &str) {
    match a {
        Action::SendLaser(c) => assert_eq!(c, cmd),
        other => panic!("expected SendLaser({:?}), got {:?}", cmd, other),
    }
}

fn expect_query_laser(a: &Action, cmd: &str) {
    match a {
        Action::QueryLaser(c) => assert_eq!(c, cmd),
        other => panic!("expected QueryLaser({:?}), got {:?}", cmd, other),
    }
}

fn expect_send_meter(a: &Action, cmd: &str) {
    match a {
        Action::SendMeter(c) => assert_eq!(c, cmd),
        other => panic!("expected SendMeter({:?}), got {:?}", cmd, other),
    }
}

fn expect_query_meter(a: &Action, cmd: &str) {
    match a {
        Action::QueryMeter(c) => assert_eq!(c, cmd),
        other => panic!("expected QueryMeter({:?}), got {:?}", cmd, other),
    }
}

fn small_config() -> CurrentSweepConfig {
    CurrentSweepConfig {
        module: 0,
        port: 2,
        start_ua: 10_000,
        stop_ua: 20_000,
        step_ua: 5_000,
        stabilization_delay_ms: 50,
        wavelength_nm: 980,
        averaging_time_us: 100_000,
        power_unit: PowerUnit::DBm,
    }
}

/// Drive a fresh session through connect, reset, safety checks and
/// configuration, up to (and including) the acknowledgement of laser-on.
/// Returns the session together with the first set-current action.
fn drive_preamble(config: CurrentSweepConfig) -> (SweepSession, Action) {
    let s = SweepSession::new(config);
    let (s, a) = s.step(Event::Start);
    assert_eq!(a, Action::ConnectLaser);
    let (s, a) = s.step(Event::Connected(Ok("THORLABS,CLD1015".to_string())));
    assert_eq!(a, Action::ConnectMeter);
    let (s, a) = s.step(Event::Connected(Ok("SANTEC,MPM-210H".to_string())));
    expect_send_laser(&a, "*RST");
    let (s, a) = s.step(sent_ok());
    assert_eq!(a, Action::Sleep(500));
    let (s, a) = s.step(Event::Slept);
    expect_query_laser(&a, "*OPC?");
    let (s, a) = s.step(reply("1"));
    expect_query_laser(&a, "SYST:ERR?");
    let (s, a) = s.step(reply("0,\"No error\""));
    expect_query_laser(&a, "OUTPut:STATe?");
    let (s, a) = s.step(reply("0"));
    expect_query_laser(&a, "OUTPut2:STATe?");
    let (s, a) = s.step(reply("ON"));
    expect_send_meter(&a, "ZERO");
    let (s, a) = s.step(sent_ok());
    assert_eq!(a, Action::Sleep(3000));
    let (s, a) = s.step(Event::Slept);
    expect_send_laser(&a, "SOURce:FUNCtion:MODE CURRent");
    let (s, a) = s.step(sent_ok());
    expect_send_laser(&a, "OUTPut:STATe OFF");
    let (s, a) = s.step(sent_ok());
    expect_send_meter(&a, "WMOD CONST1");
    let (s, a) = s.step(sent_ok());
    expect_send_meter(&a, "AVG 100");
    let (s, a) = s.step(sent_ok());
    expect_send_meter(&a, "UNIT 0");
    let (s, a) = s.step(sent_ok());
    expect_send_meter(&a, "WAV 980");
    let (s, a) = s.step(sent_ok());
    expect_query_laser(&a, "OUTPut2:STATe?");
    let (s, a) = s.step(reply("1"));
    expect_send_laser(&a, "OUTPut:STATe ON");
    s.step(sent_ok())
}

#[test]
fn invalid_step_rejected_before_any_device_action() {
    let mut config = small_config();
    config.step_ua = 0;
    let s = SweepSession::new(config);
    let (s, a) = s.step(Event::Start);
    assert_eq!(a, Action::Fail(SweepError::InvalidSweepParameters));
    assert_eq!(s.phase, Phase::Failed);
}

#[test]
fn start_above_stop_rejected_before_any_device_action() {
    let mut config = small_config();
    config.start_ua = 30_000;
    let s = SweepSession::new(config);
    let (_s, a) = s.step(Event::Start);
    assert_eq!(a, Action::Fail(SweepError::InvalidSweepParameters));
}

#[test]
fn negative_step_rejected_before_any_device_action() {
    let mut config = small_config();
    config.step_ua = -5_000;
    let s = SweepSession::new(config);
    let (_s, a) = s.step(Event::Start);
    assert_eq!(a, Action::Fail(SweepError::InvalidSweepParameters));
}

#[test]
fn three_step_sweep_produces_three_records_in_order() {
    let (s, a) = drive_preamble(small_config());
    expect_send_laser(&a, "SOURce:CURRent:LEVel:IMMediate:AMPLitude 0.01");
    let (s, a) = s.step(sent_ok());
    assert_eq!(a, Action::Sleep(50));
    let (s, a) = s.step(Event::Slept);
    expect_query_meter(&a, "READ? 0");
    let (s, a) = s.step(reply("-12.3,-5.0,-8.1,-20.0"));
    expect_send_laser(&a, "SOURce:CURRent:LEVel:IMMediate:AMPLitude 0.015");
    let (s, a) = s.step(sent_ok());
    assert_eq!(a, Action::Sleep(50));
    let (s, a) = s.step(Event::Slept);
    expect_query_meter(&a, "READ? 0");
    let (s, a) = s.step(reply("-12.3,-5.1,-8.1,-20.0"));
    expect_send_laser(&a, "SOURce:CURRent:LEVel:IMMediate:AMPLitude 0.02");
    let (s, a) = s.step(sent_ok());
    assert_eq!(a, Action::Sleep(50));
    let (s, a) = s.step(Event::Slept);
    expect_query_meter(&a, "READ? 0");
    let (s, a) = s.step(reply("-12.3,-5.2,-8.1,-20.0"));
    expect_send_laser(&a, "OUTPut:STATe OFF");

    assert_eq!(s.records.len(), 3);
    let currents: Vec<i64> = s.records.iter().map(|r| r.current_ua).collect();
    assert_eq!(currents, vec![10_000, 15_000, 20_000]);
    let powers: Vec<&str> = s.records.iter().map(|r| r.power_dbm.as_str()).collect();
    assert_eq!(powers, vec!["-5.0", "-5.1", "-5.2"]);
    for r in s.records.iter() {
        assert!(!r.power_dbm.is_empty());
        assert!(!r.timestamp.is_empty());
    }
    let times: Vec<chrono::DateTime<chrono::FixedOffset>> = s
        .records
        .iter()
        .map(|r| chrono::DateTime::parse_from_rfc3339(&r.timestamp).unwrap())
        .collect();
    assert!(times[0] <= times[1]);
    assert!(times[1] <= times[2]);

    let (s, a) = s.step(sent_ok());
    let body = match a {
        Action::Save(b) => b,
        other => panic!("expected Save, got {:?}", other),
    };
    let mut expected = String::from("timestamp,current_mA,power_dBm,module\n");
    expected.push_str(&format!("{},10,-5.0,0\n", s.records[0].timestamp));
    expected.push_str(&format!("{},15,-5.1,0\n", s.records[1].timestamp));
    expected.push_str(&format!("{},20,-5.2,0\n", s.records[2].timestamp));
    assert_eq!(String::from_utf8(body).unwrap(), expected);

    let (s, a) = s.step(Event::Saved(Ok("logs/experiment.csv".to_string())));
    assert_eq!(a, Action::Finish("logs/experiment.csv".to_string()));
    assert_eq!(s.phase, Phase::Done);
    let (_s, a) = s.step(Event::Slept);
    assert_eq!(a, Action::Halt);
}

#[test]
fn current_above_ceiling_turns_laser_off_and_aborts() {
    let mut config = small_config();
    config.start_ua = 1_500_000;
    config.stop_ua = 1_600_000;
    config.step_ua = 100_000;
    let (s, a) = drive_preamble(config);
    expect_send_laser(&a, "SOURce:CURRent:LEVel:IMMediate:AMPLitude 1.5");
    let (s, a) = s.step(sent_ok());
    assert_eq!(a, Action::Sleep(50));
    let (s, a) = s.step(Event::Slept);
    expect_query_meter(&a, "READ? 0");
    let (s, a) = s.step(reply("0.1,0.2,0.3,0.4"));
    expect_send_laser(&a, "OUTPut:STATe OFF");
    let (s, a) = s.step(sent_ok());
    assert_eq!(
        a,
        Action::Fail(SweepError::CurrentAboveLimit { current_ua: 1_600_000 })
    );
    assert_eq!(s.phase, Phase::Failed);
    assert_eq!(s.records.len(), 1);
}

#[test]
fn tec_off_at_recheck_blocks_laser_on() {
    let s = SweepSession::new(small_config());
    let (s, _) = s.step(Event::Start);
    let (s, _) = s.step(Event::Connected(Ok("cld".to_string())));
    let (s, _) = s.step(Event::Connected(Ok("mpm".to_string())));
    let (s, _) = s.step(sent_ok());
    let (s, _) = s.step(Event::Slept);
    let (s, _) = s.step(reply("1"));
    let (s, _) = s.step(reply("0,\"No error\""));
    let (s, _) = s.step(reply("0"));
    let (s, _) = s.step(reply("ON"));
    let (s, _) = s.step(sent_ok());
    let (s, _) = s.step(Event::Slept);
    let (s, _) = s.step(sent_ok());
    let (s, _) = s.step(sent_ok());
    let (s, _) = s.step(sent_ok());
    let (s, _) = s.step(sent_ok());
    let (s, _) = s.step(sent_ok());
    let (s, a) = s.step(sent_ok());
    expect_query_laser(&a, "OUTPut2:STATe?");
    let (s, a) = s.step(reply("OFF"));
    assert_eq!(a, Action::Fail(SweepError::TecOff));
    assert_eq!(s.phase, Phase::Failed);
}

#[test]
fn failed_reset_verification_is_not_fatal() {
    let s = SweepSession::new(small_config());
    let (s, _) = s.step(Event::Start);
    let (s, _) = s.step(Event::Connected(Ok("cld".to_string())));
    let (s, _) = s.step(Event::Connected(Ok("mpm".to_string())));
    let (s, _) = s.step(sent_ok());
    let (s, _) = s.step(Event::Slept);
    let (_s, a) = s.step(reply("0"));
    expect_query_laser(&a, "OUTPut:STATe?");
}

#[test]
fn tec_enabled_when_found_off() {
    let s = SweepSession::new(small_config());
    let (s, _) = s.step(Event::Start);
    let (s, _) = s.step(Event::Connected(Ok("cld".to_string())));
    let (s, _) = s.step(Event::Connected(Ok("mpm".to_string())));
    let (s, _) = s.step(sent_ok());
    let (s, _) = s.step(Event::Slept);
    let (s, _) = s.step(reply("1"));
    let (s, _) = s.step(reply("0,\"No error\""));
    let (s, a) = s.step(reply("0"));
    expect_query_laser(&a, "OUTPut2:STATe?");
    let (s, a) = s.step(reply("OFF"));
    expect_send_laser(&a, "OUTPut2:STATe ON");
    let (s, a) = s.step(sent_ok());
    assert_eq!(a, Action::Sleep(5000));
    let (_s, a) = s.step(Event::Slept);
    expect_send_meter(&a, "ZERO");
}

#[test]
fn laser_still_on_after_reset_is_forced_off() {
    let s = SweepSession::new(small_config());
    let (s, _) = s.step(Event::Start);
    let (s, _) = s.step(Event::Connected(Ok("cld".to_string())));
    let (s, _) = s.step(Event::Connected(Ok("mpm".to_string())));
    let (s, _) = s.step(sent_ok());
    let (s, _) = s.step(Event::Slept);
    let (s, _) = s.step(reply("1"));
    let (s, _) = s.step(reply("0,\"No error\""));
    let (s, a) = s.step(reply("ON"));
    expect_send_laser(&a, "OUTPut:STATe OFF");
    let (_s, a) = s.step(sent_ok());
    expect_query_laser(&a, "OUTPut2:STATe?");
}

#[test]
fn short_power_response_aborts_with_laser_off() {
    let (s, _a) = drive_preamble(small_config());
    let (s, _) = s.step(sent_ok());
    let (s, _) = s.step(Event::Slept);
    let (s, a) = s.step(reply("-12.3"));
    expect_send_laser(&a, "OUTPut:STATe OFF");
    let (s, a) = s.step(sent_ok());
    assert_eq!(
        a,
        Action::Fail(SweepError::PowerResponseShort { current_ua: 10_000 })
    );
    assert_eq!(s.phase, Phase::Failed);
}

#[test]
fn transport_failure_during_read_aborts_with_laser_off() {
    let (s, _a) = drive_preamble(small_config());
    let (s, _) = s.step(sent_ok());
    let (s, _) = s.step(Event::Slept);
    let (s, a) = s.step(Event::Reply(Err("connection reset".to_string())));
    expect_send_laser(&a, "OUTPut:STATe OFF");
    let (_s, a) = s.step(sent_ok());
    assert_eq!(
        a,
        Action::Fail(SweepError::ReadPower {
            current_ua: 10_000,
            message: "connection reset".to_string()
        })
    );
}

#[test]
fn unexpected_event_fails_the_run() {
    let s = SweepSession::new(small_config());
    let (s, a) = s.step(Event::Slept);
    assert_eq!(a, Action::Fail(SweepError::UnexpectedEvent));
    assert_eq!(s.phase, Phase::Failed);
}

#[test]
fn connect_failure_is_fatal() {
    let s = SweepSession::new(small_config());
    let (s, _) = s.step(Event::Start);
    let (_s, a) = s.step(Event::Connected(Err("no route to host".to_string())));
    assert_eq!(
        a,
        Action::Fail(SweepError::LaserConnect("no route to host".to_string()))
    );
}

#[test]
fn default_config_matches_stock_experiment() {
    let c = CurrentSweepConfig::default();
    assert_eq!(c.module, 0);
    assert_eq!(c.port, 2);
    assert_eq!(c.start_ua, 10_000);
    assert_eq!(c.stop_ua, 100_000);
    assert_eq!(c.step_ua, 5_000);
    assert_eq!(c.stabilization_delay_ms, 50);
    assert_eq!(c.wavelength_nm, 980);
    assert_eq!(c.averaging_time_us, 100_000);
    assert_eq!(c.power_unit, PowerUnit::DBm);
}
