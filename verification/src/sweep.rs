//! The current-sweep orchestrator as a verified state machine.  Every
//! decision of the procedure lives in `step`: which command or delay comes
//! next, which failures abort the run, when the laser must be forced off,
//! and what each sample records.  A driver owns the transports: it performs
//! each returned [`Action`] and feeds the outcome back as the next
//! [`Event`].

use vstd::prelude::*;

use crate::MAX_SAFE_CURRENT_UA;
use crate::cld1015::{
    current_mode_command, error_query, laser_output_command, laser_state_query, opc_query,
    reset_command, set_current_command, spec_current_mode_command, spec_error_query,
    spec_laser_output_command, spec_laser_state_query, spec_opc_query, spec_reset_command,
    spec_reset_complete, spec_set_current_command, spec_tec_on_command, spec_tec_state_query,
    tec_on_command, tec_state_query,
};
use crate::mpm210h::{
    averaging_command, measurement_mode_command, port_power_from_response, read_power_command,
    spec_averaging_command, spec_measurement_mode_command, spec_read_power_command,
    spec_unit_command, spec_zero_command, unit_command, zero_command,
};
use crate::records::{MeasurementRecord, csv_bytes, csv_encoding, records_view, spec_csv_rows};
use crate::text::{cld_queue_empty, parse_on_off, spec_cld_queue_empty, spec_on_off, spec_split, spec_trim};

verus! {

/// The unit the power meter reports in.
#[derive(Clone, Copy, PartialEq, Eq, Structural, Debug)]
pub enum PowerUnit {
    DBm,
    MilliWatt,
}

impl PowerUnit {
    /// The unit's wire code: 0 for dBm, 1 for milliwatts.
    pub open spec fn spec_code(self) -> u8 {
        match self {
            PowerUnit::DBm => 0,
            PowerUnit::MilliWatt => 1,
        }
    }

    pub fn code(&self) -> (r: u8)
        ensures
            r == self.spec_code(),
    {
        match self {
            PowerUnit::DBm => 0,
            PowerUnit::MilliWatt => 1,
        }
    }
}

/// The parameters of one sweep.  Currents are in microamps and the
/// averaging time in microseconds, so that milliamp and millisecond values
/// with a few decimals are exact.
#[derive(Clone, Copy, PartialEq, Eq, Structural, Debug)]
pub struct CurrentSweepConfig {
    pub module: u8,
    pub port: u8,
    pub start_ua: i64,
    pub stop_ua: i64,
    pub step_ua: i64,
    pub stabilization_delay_ms: u64,
    pub wavelength_nm: u32,
    pub averaging_time_us: u64,
    pub power_unit: PowerUnit,
}

/// The stock configuration: module 0, port 2, 10 mA to 100 mA in 5 mA
/// steps, 50 ms stabilization, 980 nm, 100 ms averaging, dBm.
pub open spec fn spec_default_config() -> CurrentSweepConfig {
    CurrentSweepConfig {
        module: 0,
        port: 2,
        start_ua: 10_000,
        stop_ua: 100_000,
        step_ua: 5_000,
        stabilization_delay_ms: 50,
        wavelength_nm: 980,
        averaging_time_us: 100_000,
        power_unit: PowerUnit::DBm,
    }
}

impl Default for CurrentSweepConfig {
    fn default() -> (r: Self)
        ensures
            r == spec_default_config(),
    {
        CurrentSweepConfig {
            module: 0,
            port: 2,
            start_ua: 10_000,
            stop_ua: 100_000,
            step_ua: 5_000,
            stabilization_delay_ms: 50,
            wavelength_nm: 980,
            averaging_time_us: 100_000,
            power_unit: PowerUnit::DBm,
        }
    }
}

/// The bounds a sweep must satisfy before any device is touched: a positive
/// step and a start no greater than the stop.
pub open spec fn valid_sweep_bounds(c: CurrentSweepConfig) -> bool {
    c.step_ua > 0 && c.start_ua <= c.stop_ua
}

pub fn check_sweep_bounds(c: &CurrentSweepConfig) -> (r: bool)
    ensures
        r == valid_sweep_bounds(*c),
{
    c.step_ua > 0 && c.start_ua <= c.stop_ua
}

/// Why a run ended before its file was written.  Variants carry the
/// driver-reported description of the transport failure where one caused
/// the abort.
#[derive(PartialEq, Eq, Debug)]
pub enum SweepError {
    InvalidSweepParameters,
    LaserConnect(String),
    MeterConnect(String),
    LaserOffAfterReset(String),
    TecQuery(String),
    TecEnable(String),
    Zeroing(String),
    CurrentMode(String),
    MeterMode(String),
    MeterAveraging(String),
    MeterUnit(String),
    MeterWavelength(String),
    TecOff,
    LaserEnable(String),
    CurrentAboveLimit { current_ua: i64 },
    SetCurrent { current_ua: i64, message: String },
    InvalidPort,
    PowerResponseShort { current_ua: i64 },
    ReadPower { current_ua: i64, message: String },
    SaveFailed(String),
    UnexpectedEvent,
}

/// What the driver must do next.
#[derive(PartialEq, Eq, Debug)]
pub enum Action {
    /// Open the laser driver connection and query its identity.
    ConnectLaser,
    /// Open the power meter connection and query its identity.
    ConnectMeter,
    /// Send the command to the laser driver, expecting no response.
    SendLaser(String),
    /// Send the query to the laser driver and read one response line.
    QueryLaser(String),
    /// Send the command to the power meter, expecting no response.
    SendMeter(String),
    /// Send the query to the power meter and read one response.
    QueryMeter(String),
    /// Wait the given number of milliseconds.
    Sleep(u64),
    /// Persist the finished CSV body and report the path written.
    Save(Vec<u8>),
    /// The run is over; the carried path names its output file.
    Finish(String),
    /// The run is over; the carried error says why it failed.
    Fail(SweepError),
    /// Nothing to do: the run already ended.
    Halt,
}

/// What the driver reports back after performing an action.  Transport
/// failures carry the driver's description of them.
#[derive(PartialEq, Eq, Debug)]
pub enum Event {
    /// Begin the run.
    Start,
    /// Outcome of a connect: the device identity, or the failure.
    Connected(Result<String, String>),
    /// Outcome of a command that expects no response.
    Sent(Result<(), String>),
    /// Outcome of a query: the response, or the failure.
    Reply(Result<String, String>),
    /// The requested delay has passed.
    Slept,
    /// Outcome of persisting the CSV body: the path written, or the failure.
    Saved(Result<String, String>),
}

/// Where the procedure stands.  The order follows the run: connect both
/// devices, reset and verify the laser driver, force its output off,
/// establish the TEC, zero the meter, configure both, enable the laser, and
/// loop over the currents before shutting off and saving.
#[derive(PartialEq, Eq, Debug)]
pub enum Phase {
    Idle,
    ConnectingLaser,
    ConnectingMeter,
    ResetSent,
    ResetWait,
    ResetVerify,
    ResetDrain,
    CheckingLaserOff,
    ForcingLaserOff,
    ForcingLaserOffUnchecked,
    CheckingTec,
    EnablingTec,
    TecStabilize,
    Zeroing,
    ZeroWait,
    SettingCurrentMode,
    PreSweepLaserOff,
    SettingMeterMode,
    SettingAveraging,
    SettingUnit,
    SettingWavelength,
    TecRecheck,
    EnablingLaser,
    SettingCurrent,
    Stabilizing,
    ReadingPower,
    AbortingLaserOff(SweepError),
    PostSweepLaserOff,
    Saving,
    Done,
    Failed,
}

/// One run of the experiment: its configuration, where it stands, the
/// current now set, and the samples taken so far.
pub struct SweepSession {
    pub config: CurrentSweepConfig,
    pub phase: Phase,
    pub current_ua: i64,
    pub records: Vec<MeasurementRecord>,
}

impl SweepSession {
    /// What every reachable session state satisfies: once the run has left
    /// `Idle` the bounds have been validated, and while the sweep loop runs
    /// the set current stays between start and stop.
    pub open spec fn wf(self) -> bool {
        &&& (self.phase is Idle || self.phase is Done || self.phase is Failed
            || valid_sweep_bounds(self.config))
        &&& ((self.phase is SettingCurrent || self.phase is Stabilizing
            || self.phase is ReadingPower) ==> self.config.start_ua <= self.current_ua
            <= self.config.stop_ua)
    }

    /// A fresh run that has touched nothing yet.
    pub fn new(config: CurrentSweepConfig) -> (r: SweepSession)
        ensures
            r.config == config,
            r.phase is Idle,
            r.current_ua == config.start_ua,
            r.records@ =~= Seq::<MeasurementRecord>::empty(),
            r.wf(),
    {
        SweepSession { config, phase: Phase::Idle, current_ua: config.start_ua, records: Vec::new() }
    }

    /// Advance the run by one event, returning the next action.
    pub fn step(self, ev: Event) -> (r: (SweepSession, Action))
        requires
            self.wf(),
        ensures
            r.0.wf(),
            step_rel(self, ev, r.0, r.1),
    {
        let SweepSession { config, phase, current_ua, records } = self;
        match (phase, ev) {
            (Phase::Done, _) => (
                SweepSession { config, phase: Phase::Done, current_ua, records },
                Action::Halt,
            ),
            (Phase::Failed, _) => (
                SweepSession { config, phase: Phase::Failed, current_ua, records },
                Action::Halt,
            ),
            (Phase::Idle, Event::Start) => {
                if check_sweep_bounds(&config) {
                    (
                        SweepSession { config, phase: Phase::ConnectingLaser, current_ua, records },
                        Action::ConnectLaser,
                    )
                } else {
                    (
                        SweepSession { config, phase: Phase::Failed, current_ua, records },
                        Action::Fail(SweepError::InvalidSweepParameters),
                    )
                }
            },
            (Phase::ConnectingLaser, Event::Connected(outcome)) => match outcome {
                Ok(_id) => (
                    SweepSession { config, phase: Phase::ConnectingMeter, current_ua, records },
                    Action::ConnectMeter,
                ),
                Err(e) => (
                    SweepSession { config, phase: Phase::Failed, current_ua, records },
                    Action::Fail(SweepError::LaserConnect(e)),
                ),
            },
            (Phase::ConnectingMeter, Event::Connected(outcome)) => match outcome {
                Ok(_id) => (
                    SweepSession { config, phase: Phase::ResetSent, current_ua, records },
                    Action::SendLaser(reset_command()),
                ),
                Err(e) => (
                    SweepSession { config, phase: Phase::Failed, current_ua, records },
                    Action::Fail(SweepError::MeterConnect(e)),
                ),
            },
            (Phase::ResetSent, Event::Sent(outcome)) => match outcome {
                Ok(_) => (
                    SweepSession { config, phase: Phase::ResetWait, current_ua, records },
                    Action::Sleep(500),
                ),
                Err(_e) => (
                    SweepSession { config, phase: Phase::CheckingLaserOff, current_ua, records },
                    Action::QueryLaser(laser_state_query()),
                ),
            },
            (Phase::ResetWait, Event::Slept) => (
                SweepSession { config, phase: Phase::ResetVerify, current_ua, records },
                Action::QueryLaser(opc_query()),
            ),
            (Phase::ResetVerify, Event::Reply(outcome)) => match outcome {
                Ok(status) => {
                    if reset_confirmed(status.as_str()) {
                        (
                            SweepSession { config, phase: Phase::ResetDrain, current_ua, records },
                            Action::QueryLaser(error_query()),
                        )
                    } else {
                        (
                            SweepSession {
                                config,
                                phase: Phase::CheckingLaserOff,
                                current_ua,
                                records,
                            },
                            Action::QueryLaser(laser_state_query()),
                        )
                    }
                },
                Err(_e) => (
                    SweepSession { config, phase: Phase::CheckingLaserOff, current_ua, records },
                    Action::QueryLaser(laser_state_query()),
                ),
            },
            (Phase::ResetDrain, Event::Reply(outcome)) => match outcome {
                Ok(entry) => {
                    if cld_queue_empty(entry.as_str()) {
                        (
                            SweepSession {
                                config,
                                phase: Phase::CheckingLaserOff,
                                current_ua,
                                records,
                            },
                            Action::QueryLaser(laser_state_query()),
                        )
                    } else {
                        (
                            SweepSession { config, phase: Phase::ResetDrain, current_ua, records },
                            Action::QueryLaser(error_query()),
                        )
                    }
                },
                Err(_e) => (
                    SweepSession { config, phase: Phase::CheckingLaserOff, current_ua, records },
                    Action::QueryLaser(laser_state_query()),
                ),
            },
            (Phase::CheckingLaserOff, Event::Reply(outcome)) => match outcome {
                Ok(state) => {
                    if parse_on_off(state.as_str()) {
                        (
                            SweepSession {
                                config,
                                phase: Phase::ForcingLaserOff,
                                current_ua,
                                records,
                            },
                            Action::SendLaser(laser_output_command(false)),
                        )
                    } else {
                        (
                            SweepSession { config, phase: Phase::CheckingTec, current_ua, records },
                            Action::QueryLaser(tec_state_query()),
                        )
                    }
                },
                Err(_e) => (
                    SweepSession {
                        config,
                        phase: Phase::ForcingLaserOffUnchecked,
                        current_ua,
                        records,
                    },
                    Action::SendLaser(laser_output_command(false)),
                ),
            },
            (Phase::ForcingLaserOff, Event::Sent(outcome)) => match outcome {
                Ok(_) => (
                    SweepSession { config, phase: Phase::CheckingTec, current_ua, records },
                    Action::QueryLaser(tec_state_query()),
                ),
                Err(e) => (
                    SweepSession { config, phase: Phase::Failed, current_ua, records },
                    Action::Fail(SweepError::LaserOffAfterReset(e)),
                ),
            },
            (Phase::ForcingLaserOffUnchecked, Event::Sent(_outcome)) => (
                SweepSession { config, phase: Phase::CheckingTec, current_ua, records },
                Action::QueryLaser(tec_state_query()),
            ),
            (Phase::CheckingTec, Event::Reply(outcome)) => match outcome {
                Ok(state) => {
                    if parse_on_off(state.as_str()) {
                        (
                            SweepSession { config, phase: Phase::Zeroing, current_ua, records },
                            Action::SendMeter(zero_command()),
                        )
                    } else {
                        (
                            SweepSession { config, phase: Phase::EnablingTec, current_ua, records },
                            Action::SendLaser(tec_on_command()),
                        )
                    }
                },
                Err(e) => (
                    SweepSession { config, phase: Phase::Failed, current_ua, records },
                    Action::Fail(SweepError::TecQuery(e)),
                ),
            },
            (Phase::EnablingTec, Event::Sent(outcome)) => match outcome {
                Ok(_) => (
                    SweepSession { config, phase: Phase::TecStabilize, current_ua, records },
                    Action::Sleep(5000),
                ),
                Err(e) => (
                    SweepSession { config, phase: Phase::Failed, current_ua, records },
                    Action::Fail(SweepError::TecEnable(e)),
                ),
            },
            (Phase::TecStabilize, Event::Slept) => (
                SweepSession { config, phase: Phase::Zeroing, current_ua, records },
                Action::SendMeter(zero_command()),
            ),
            (Phase::Zeroing, Event::Sent(outcome)) => match outcome {
                Ok(_) => (
                    SweepSession { config, phase: Phase::ZeroWait, current_ua, records },
                    Action::Sleep(3000),
                ),
                Err(e) => (
                    SweepSession { config, phase: Phase::Failed, current_ua, records },
                    Action::Fail(SweepError::Zeroing(e)),
                ),
            },
            (Phase::ZeroWait, Event::Slept) => (
                SweepSession { config, phase: Phase::SettingCurrentMode, current_ua, records },
                Action::SendLaser(current_mode_command()),
            ),
            (Phase::SettingCurrentMode, Event::Sent(outcome)) => match outcome {
                Ok(_) => (
                    SweepSession { config, phase: Phase::PreSweepLaserOff, current_ua, records },
                    Action::SendLaser(laser_output_command(false)),
                ),
                Err(e) => (
                    SweepSession { config, phase: Phase::Failed, current_ua, records },
                    Action::Fail(SweepError::CurrentMode(e)),
                ),
            },
            (Phase::PreSweepLaserOff, Event::Sent(_outcome)) => (
                SweepSession { config, phase: Phase::SettingMeterMode, current_ua, records },
                Action::SendMeter(measurement_mode_command("CONST1")),
            ),
            (Phase::SettingMeterMode, Event::Sent(outcome)) => match outcome {
                Ok(_) => (
                    SweepSession { config, phase: Phase::SettingAveraging, current_ua, records },
                    Action::SendMeter(averaging_command(config.averaging_time_us)),
                ),
                Err(e) => (
                    SweepSession { config, phase: Phase::Failed, current_ua, records },
                    Action::Fail(SweepError::MeterMode(e)),
                ),
            },
            (Phase::SettingAveraging, Event::Sent(outcome)) => match outcome {
                Ok(_) => {
                    let cmd = match unit_command(config.power_unit.code()) {
                        Ok(c) => c,
                        Err(_) => unreached(),
                    };
                    (
                        SweepSession { config, phase: Phase::SettingUnit, current_ua, records },
                        Action::SendMeter(cmd),
                    )
                },
                Err(e) => (
                    SweepSession { config, phase: Phase::Failed, current_ua, records },
                    Action::Fail(SweepError::MeterAveraging(e)),
                ),
            },
            (Phase::SettingUnit, Event::Sent(outcome)) => match outcome {
                Ok(_) => (
                    SweepSession { config, phase: Phase::SettingWavelength, current_ua, records },
                    Action::SendMeter(crate::mpm210h::wavelength_command(config.wavelength_nm)),
                ),
                Err(e) => (
                    SweepSession { config, phase: Phase::Failed, current_ua, records },
                    Action::Fail(SweepError::MeterUnit(e)),
                ),
            },
            (Phase::SettingWavelength, Event::Sent(outcome)) => match outcome {
                Ok(_) => (
                    SweepSession { config, phase: Phase::TecRecheck, current_ua, records },
                    Action::QueryLaser(tec_state_query()),
                ),
                Err(e) => (
                    SweepSession { config, phase: Phase::Failed, current_ua, records },
                    Action::Fail(SweepError::MeterWavelength(e)),
                ),
            },
            (Phase::TecRecheck, Event::Reply(outcome)) => match outcome {
                Ok(state) => {
                    if parse_on_off(state.as_str()) {
                        (
                            SweepSession {
                                config,
                                phase: Phase::EnablingLaser,
                                current_ua,
                                records,
                            },
                            Action::SendLaser(laser_output_command(true)),
                        )
                    } else {
                        (
                            SweepSession { config, phase: Phase::Failed, current_ua, records },
                            Action::Fail(SweepError::TecOff),
                        )
                    }
                },
                Err(e) => (
                    SweepSession { config, phase: Phase::Failed, current_ua, records },
                    Action::Fail(SweepError::LaserEnable(e)),
                ),
            },
            (Phase::EnablingLaser, Event::Sent(outcome)) => match outcome {
                Ok(_) => {
                    let start = config.start_ua;
                    Self::issue_set_current(config, start, records)
                },
                Err(e) => (
                    SweepSession { config, phase: Phase::Failed, current_ua, records },
                    Action::Fail(SweepError::LaserEnable(e)),
                ),
            },
            (Phase::SettingCurrent, Event::Sent(outcome)) => match outcome {
                Ok(_) => (
                    SweepSession { config, phase: Phase::Stabilizing, current_ua, records },
                    Action::Sleep(config.stabilization_delay_ms),
                ),
                Err(e) => (
                    SweepSession {
                        config,
                        phase: Phase::AbortingLaserOff(
                            SweepError::SetCurrent { current_ua, message: e },
                        ),
                        current_ua,
                        records,
                    },
                    Action::SendLaser(laser_output_command(false)),
                ),
            },
            (Phase::Stabilizing, Event::Slept) => {
                if config.port < 1 || config.port > 4 {
                    (
                        SweepSession {
                            config,
                            phase: Phase::AbortingLaserOff(SweepError::InvalidPort),
                            current_ua,
                            records,
                        },
                        Action::SendLaser(laser_output_command(false)),
                    )
                } else {
                    (
                        SweepSession { config, phase: Phase::ReadingPower, current_ua, records },
                        Action::QueryMeter(read_power_command(config.module)),
                    )
                }
            },
            (Phase::ReadingPower, Event::Reply(outcome)) => match outcome {
                Ok(response) => match port_power_from_response(response.as_str(), config.port) {
                    Ok(power) => {
                        let timestamp = now_rfc3339();
                        let ghost prev = records@;
                        let mut records = records;
                        records.push(
                            MeasurementRecord {
                                timestamp,
                                current_ua,
                                power_dbm: power,
                                module: config.module,
                            },
                        );
                        proof {
                            assert(records@.subrange(0, prev.len() as int) =~= prev);
                        }
                        Self::advance_sweep(config, current_ua, records)
                    },
                    Err(_) => (
                        SweepSession {
                            config,
                            phase: Phase::AbortingLaserOff(
                                SweepError::PowerResponseShort { current_ua },
                            ),
                            current_ua,
                            records,
                        },
                        Action::SendLaser(laser_output_command(false)),
                    ),
                },
                Err(e) => (
                    SweepSession {
                        config,
                        phase: Phase::AbortingLaserOff(
                            SweepError::ReadPower { current_ua, message: e },
                        ),
                        current_ua,
                        records,
                    },
                    Action::SendLaser(laser_output_command(false)),
                ),
            },
            (Phase::AbortingLaserOff(err), Event::Sent(_outcome)) => (
                SweepSession { config, phase: Phase::Failed, current_ua, records },
                Action::Fail(err),
            ),
            (Phase::PostSweepLaserOff, Event::Sent(_outcome)) => {
                let body = csv_bytes(&records);
                (
                    SweepSession { config, phase: Phase::Saving, current_ua, records },
                    Action::Save(body),
                )
            },
            (Phase::Saving, Event::Saved(outcome)) => match outcome {
                Ok(path) => (
                    SweepSession { config, phase: Phase::Done, current_ua, records },
                    Action::Finish(path),
                ),
                Err(e) => (
                    SweepSession { config, phase: Phase::Failed, current_ua, records },
                    Action::Fail(SweepError::SaveFailed(e)),
                ),
            },
            (_, _) => (
                SweepSession { config, phase: Phase::Failed, current_ua, records },
                Action::Fail(SweepError::UnexpectedEvent),
            ),
        }
    }

    fn issue_set_current(
        config: CurrentSweepConfig,
        target_ua: i64,
        records: Vec<MeasurementRecord>,
    ) -> (r: (SweepSession, Action))
        requires
            valid_sweep_bounds(config),
            config.start_ua <= target_ua <= config.stop_ua,
        ensures
            r.0.config == config,
            r.0.records == records,
            r.0.current_ua == target_ua,
            r.0.wf(),
            issue_set_current_rel(target_ua as int, r.0, r.1),
    {
        match set_current_command(target_ua) {
            Ok(cmd) => (
                SweepSession {
                    config,
                    phase: Phase::SettingCurrent,
                    current_ua: target_ua,
                    records,
                },
                Action::SendLaser(cmd),
            ),
            Err(_) => (
                SweepSession {
                    config,
                    phase: Phase::AbortingLaserOff(
                        SweepError::CurrentAboveLimit { current_ua: target_ua },
                    ),
                    current_ua: target_ua,
                    records,
                },
                Action::SendLaser(laser_output_command(false)),
            ),
        }
    }

    fn advance_sweep(
        config: CurrentSweepConfig,
        current_ua: i64,
        records: Vec<MeasurementRecord>,
    ) -> (r: (SweepSession, Action))
        requires
            valid_sweep_bounds(config),
            config.start_ua <= current_ua <= config.stop_ua,
        ensures
            r.0.config == config,
            r.0.records == records,
            r.0.wf(),
            ({
                let next = current_ua as int + config.step_ua as int;
                if next <= config.stop_ua as int {
                    r.0.current_ua == next && issue_set_current_rel(next, r.0, r.1)
                } else {
                    &&& r.0.current_ua == current_ua
                    &&& r.0.phase is PostSweepLaserOff
                    &&& r.1 matches Action::SendLaser(c) && c@ == spec_laser_output_command(false)
                }
            }),
    {
        let next: i128 = current_ua as i128 + config.step_ua as i128;
        if next <= config.stop_ua as i128 {
            let next_ua: i64 = next as i64;
            Self::issue_set_current(config, next_ua, records)
        } else {
            (
                SweepSession { config, phase: Phase::PostSweepLaserOff, current_ua, records },
                Action::SendLaser(laser_output_command(false)),
            )
        }
    }
}

fn reset_confirmed(status: &str) -> (r: bool)
    ensures
        r == spec_reset_complete(status@),
{
    status.unicode_len() == 1 && status.get_char(0) == '1'
}

/// Relies on chrono's `Utc::now` and `DateTime::to_rfc3339`: the current
/// UTC time rendered as an RFC 3339 string, which is never empty.
#[verifier::external_body]
fn now_rfc3339() -> (r: String)
    ensures
        r@.len() > 0,
{
    chrono::Utc::now().to_rfc3339()
}

/// Where a command must be refused or a current computed, what `step`
/// produced for one target current: above the safety ceiling no set-current
/// command exists and the laser is shut off; otherwise exactly the
/// set-current command for that value is sent.
pub open spec fn issue_set_current_rel(target: int, post: SweepSession, action: Action) -> bool {
    if target > MAX_SAFE_CURRENT_UA {
        &&& post.phase matches Phase::AbortingLaserOff(e) && e == (SweepError::CurrentAboveLimit {
            current_ua: target as i64,
        })
        &&& action matches Action::SendLaser(cmd) && cmd@ == spec_laser_output_command(false)
    } else {
        &&& post.phase is SettingCurrent
        &&& action matches Action::SendLaser(cmd) && cmd@ == spec_set_current_command(target)
    }
}

/// The frame most transitions keep: configuration, records and current are
/// untouched.
pub open spec fn same_core(pre: SweepSession, post: SweepSession) -> bool {
    post.config == pre.config && post.records == pre.records && post.current_ua == pre.current_ua
}

/// A fatal transition: the run fails with exactly `err`.
pub open spec fn fails_with(
    pre: SweepSession,
    post: SweepSession,
    action: Action,
    err: SweepError,
) -> bool {
    &&& same_core(pre, post)
    &&& post.phase is Failed
    &&& action == Action::Fail(err)
}

/// An abort in the sweep loop: the laser-off command goes out first and the
/// run then fails with `err`.
pub open spec fn aborts_with(
    pre: SweepSession,
    post: SweepSession,
    action: Action,
    err: SweepError,
) -> bool {
    &&& post.config == pre.config
    &&& post.records == pre.records
    &&& post.current_ua == pre.current_ua
    &&& post.phase == Phase::AbortingLaserOff(err)
    &&& action matches Action::SendLaser(c) && c@ == spec_laser_output_command(false)
}

/// An ordinary transition: only the phase moves, and `action` goes out.
pub open spec fn moves_to(
    pre: SweepSession,
    post: SweepSession,
    phase: Phase,
    action: Action,
    expected: Action,
) -> bool {
    &&& same_core(pre, post)
    &&& post.phase == phase
    &&& action == expected
}

/// A transition that sends a freshly built command: only the phase moves,
/// and the action carries exactly the text `cmd`.
pub open spec fn sends(
    pre: SweepSession,
    post: SweepSession,
    action: Action,
    phase: Phase,
    laser: bool,
    query: bool,
    cmd: Seq<char>,
) -> bool {
    &&& same_core(pre, post)
    &&& post.phase == phase
    &&& (match (laser, query) {
        (true, false) => action matches Action::SendLaser(c) && c@ == cmd,
        (true, true) => action matches Action::QueryLaser(c) && c@ == cmd,
        (false, false) => action matches Action::SendMeter(c) && c@ == cmd,
        (false, true) => action matches Action::QueryMeter(c) && c@ == cmd,
    })
}

/// An event that its phase cannot accept ends the run.
pub open spec fn unexpected_rel(pre: SweepSession, post: SweepSession, action: Action) -> bool {
    fails_with(pre, post, action, SweepError::UnexpectedEvent)
}

/// One sample was appended: all earlier records kept, and the new one holds
/// the current that was set, the extracted power text, the configured
/// module, and some nonempty timestamp.
pub open spec fn record_appended(pre: SweepSession, post: SweepSession, power: Seq<char>) -> bool {
    &&& post.records@.len() == pre.records@.len() + 1
    &&& post.records@.subrange(0, pre.records@.len() as int) == pre.records@
    &&& post.records@.last().timestamp@.len() > 0
    &&& post.records@.last().current_ua == pre.current_ua
    &&& post.records@.last().power_dbm@ == power
    &&& post.records@.last().module == pre.config.module
}

/// After a sample: either the next current is due (checked against the
/// ceiling before any command exists), or the sweep is complete and the
/// laser-off command goes out before saving.
pub open spec fn sweep_advances(pre: SweepSession, post: SweepSession, action: Action) -> bool {
    let next = pre.current_ua as int + pre.config.step_ua as int;
    if next <= pre.config.stop_ua as int {
        post.current_ua == next && issue_set_current_rel(next, post, action)
    } else {
        &&& post.current_ua == pre.current_ua
        &&& post.phase is PostSweepLaserOff
        &&& action matches Action::SendLaser(c) && c@ == spec_laser_output_command(false)
    }
}

/// The full transition relation of the sweep procedure: for every state and
/// event, what the next state and action are.
pub open spec fn step_rel(pre: SweepSession, ev: Event, post: SweepSession, action: Action) -> bool {
    let cfg = pre.config;
    match pre.phase {
        Phase::Done => same_core(pre, post) && post.phase is Done && action is Halt,
        Phase::Failed => same_core(pre, post) && post.phase is Failed && action is Halt,
        Phase::Idle => match ev {
            Event::Start => {
                if valid_sweep_bounds(cfg) {
                    moves_to(pre, post, Phase::ConnectingLaser, action, Action::ConnectLaser)
                } else {
                    fails_with(pre, post, action, SweepError::InvalidSweepParameters)
                }
            },
            _ => unexpected_rel(pre, post, action),
        },
        Phase::ConnectingLaser => match ev {
            Event::Connected(Result::Ok(_id)) => moves_to(
                pre,
                post,
                Phase::ConnectingMeter,
                action,
                Action::ConnectMeter,
            ),
            Event::Connected(Result::Err(e)) => fails_with(
                pre,
                post,
                action,
                SweepError::LaserConnect(e),
            ),
            _ => unexpected_rel(pre, post, action),
        },
        Phase::ConnectingMeter => match ev {
            Event::Connected(Result::Ok(_id)) => sends(
                pre,
                post,
                action,
                Phase::ResetSent,
                true,
                false,
                spec_reset_command(),
            ),
            Event::Connected(Result::Err(e)) => fails_with(
                pre,
                post,
                action,
                SweepError::MeterConnect(e),
            ),
            _ => unexpected_rel(pre, post, action),
        },
        Phase::ResetSent => match ev {
            Event::Sent(Result::Ok(_)) => moves_to(
                pre,
                post,
                Phase::ResetWait,
                action,
                Action::Sleep(500),
            ),
            Event::Sent(Result::Err(_e)) => sends(
                pre,
                post,
                action,
                Phase::CheckingLaserOff,
                true,
                true,
                spec_laser_state_query(),
            ),
            _ => unexpected_rel(pre, post, action),
        },
        Phase::ResetWait => match ev {
            Event::Slept => sends(
                pre,
                post,
                action,
                Phase::ResetVerify,
                true,
                true,
                spec_opc_query(),
            ),
            _ => unexpected_rel(pre, post, action),
        },
        Phase::ResetVerify => match ev {
            Event::Reply(Result::Ok(status)) => {
                if spec_reset_complete(status@) {
                    sends(pre, post, action, Phase::ResetDrain, true, true, spec_error_query())
                } else {
                    sends(
                        pre,
                        post,
                        action,
                        Phase::CheckingLaserOff,
                        true,
                        true,
                        spec_laser_state_query(),
                    )
                }
            },
            Event::Reply(Result::Err(_e)) => sends(
                pre,
                post,
                action,
                Phase::CheckingLaserOff,
                true,
                true,
                spec_laser_state_query(),
            ),
            _ => unexpected_rel(pre, post, action),
        },
        Phase::ResetDrain => match ev {
            Event::Reply(Result::Ok(entry)) => {
                if spec_cld_queue_empty(entry@) {
                    sends(
                        pre,
                        post,
                        action,
                        Phase::CheckingLaserOff,
                        true,
                        true,
                        spec_laser_state_query(),
                    )
                } else {
                    sends(pre, post, action, Phase::ResetDrain, true, true, spec_error_query())
                }
            },
            Event::Reply(Result::Err(_e)) => sends(
                pre,
                post,
                action,
                Phase::CheckingLaserOff,
                true,
                true,
                spec_laser_state_query(),
            ),
            _ => unexpected_rel(pre, post, action),
        },
        Phase::CheckingLaserOff => match ev {
            Event::Reply(Result::Ok(state)) => {
                if spec_on_off(state@) {
                    sends(
                        pre,
                        post,
                        action,
                        Phase::ForcingLaserOff,
                        true,
                        false,
                        spec_laser_output_command(false),
                    )
                } else {
                    sends(
                        pre,
                        post,
                        action,
                        Phase::CheckingTec,
                        true,
                        true,
                        spec_tec_state_query(),
                    )
                }
            },
            Event::Reply(Result::Err(_e)) => sends(
                pre,
                post,
                action,
                Phase::ForcingLaserOffUnchecked,
                true,
                false,
                spec_laser_output_command(false),
            ),
            _ => unexpected_rel(pre, post, action),
        },
        Phase::ForcingLaserOff => match ev {
            Event::Sent(Result::Ok(_)) => sends(
                pre,
                post,
                action,
                Phase::CheckingTec,
                true,
                true,
                spec_tec_state_query(),
            ),
            Event::Sent(Result::Err(e)) => fails_with(
                pre,
                post,
                action,
                SweepError::LaserOffAfterReset(e),
            ),
            _ => unexpected_rel(pre, post, action),
        },
        Phase::ForcingLaserOffUnchecked => match ev {
            Event::Sent(_) => sends(
                pre,
                post,
                action,
                Phase::CheckingTec,
                true,
                true,
                spec_tec_state_query(),
            ),
            _ => unexpected_rel(pre, post, action),
        },
        Phase::CheckingTec => match ev {
            Event::Reply(Result::Ok(state)) => {
                if spec_on_off(state@) {
                    sends(pre, post, action, Phase::Zeroing, false, false, spec_zero_command())
                } else {
                    sends(pre, post, action, Phase::EnablingTec, true, false, spec_tec_on_command())
                }
            },
            Event::Reply(Result::Err(e)) => fails_with(pre, post, action, SweepError::TecQuery(e)),
            _ => unexpected_rel(pre, post, action),
        },
        Phase::EnablingTec => match ev {
            Event::Sent(Result::Ok(_)) => moves_to(
                pre,
                post,
                Phase::TecStabilize,
                action,
                Action::Sleep(5000),
            ),
            Event::Sent(Result::Err(e)) => fails_with(pre, post, action, SweepError::TecEnable(e)),
            _ => unexpected_rel(pre, post, action),
        },
        Phase::TecStabilize => match ev {
            Event::Slept => sends(pre, post, action, Phase::Zeroing, false, false, spec_zero_command()),
            _ => unexpected_rel(pre, post, action),
        },
        Phase::Zeroing => match ev {
            Event::Sent(Result::Ok(_)) => moves_to(
                pre,
                post,
                Phase::ZeroWait,
                action,
                Action::Sleep(3000),
            ),
            Event::Sent(Result::Err(e)) => fails_with(pre, post, action, SweepError::Zeroing(e)),
            _ => unexpected_rel(pre, post, action),
        },
        Phase::ZeroWait => match ev {
            Event::Slept => sends(
                pre,
                post,
                action,
                Phase::SettingCurrentMode,
                true,
                false,
                spec_current_mode_command(),
            ),
            _ => unexpected_rel(pre, post, action),
        },
        Phase::SettingCurrentMode => match ev {
            Event::Sent(Result::Ok(_)) => sends(
                pre,
                post,
                action,
                Phase::PreSweepLaserOff,
                true,
                false,
                spec_laser_output_command(false),
            ),
            Event::Sent(Result::Err(e)) => fails_with(
                pre,
                post,
                action,
                SweepError::CurrentMode(e),
            ),
            _ => unexpected_rel(pre, post, action),
        },
        Phase::PreSweepLaserOff => match ev {
            Event::Sent(_) => sends(
                pre,
                post,
                action,
                Phase::SettingMeterMode,
                false,
                false,
                spec_measurement_mode_command("CONST1"@),
            ),
            _ => unexpected_rel(pre, post, action),
        },
        Phase::SettingMeterMode => match ev {
            Event::Sent(Result::Ok(_)) => sends(
                pre,
                post,
                action,
                Phase::SettingAveraging,
                false,
                false,
                spec_averaging_command(cfg.averaging_time_us as nat),
            ),
            Event::Sent(Result::Err(e)) => fails_with(pre, post, action, SweepError::MeterMode(e)),
            _ => unexpected_rel(pre, post, action),
        },
        Phase::SettingAveraging => match ev {
            Event::Sent(Result::Ok(_)) => sends(
                pre,
                post,
                action,
                Phase::SettingUnit,
                false,
                false,
                spec_unit_command(cfg.power_unit.spec_code()),
            ),
            Event::Sent(Result::Err(e)) => fails_with(
                pre,
                post,
                action,
                SweepError::MeterAveraging(e),
            ),
            _ => unexpected_rel(pre, post, action),
        },
        Phase::SettingUnit => match ev {
            Event::Sent(Result::Ok(_)) => sends(
                pre,
                post,
                action,
                Phase::SettingWavelength,
                false,
                false,
                crate::mpm210h::spec_wavelength_command(cfg.wavelength_nm),
            ),
            Event::Sent(Result::Err(e)) => fails_with(pre, post, action, SweepError::MeterUnit(e)),
            _ => unexpected_rel(pre, post, action),
        },
        Phase::SettingWavelength => match ev {
            Event::Sent(Result::Ok(_)) => sends(
                pre,
                post,
                action,
                Phase::TecRecheck,
                true,
                true,
                spec_tec_state_query(),
            ),
            Event::Sent(Result::Err(e)) => fails_with(
                pre,
                post,
                action,
                SweepError::MeterWavelength(e),
            ),
            _ => unexpected_rel(pre, post, action),
        },
        Phase::TecRecheck => match ev {
            Event::Reply(Result::Ok(state)) => {
                if spec_on_off(state@) {
                    sends(
                        pre,
                        post,
                        action,
                        Phase::EnablingLaser,
                        true,
                        false,
                        spec_laser_output_command(true),
                    )
                } else {
                    fails_with(pre, post, action, SweepError::TecOff)
                }
            },
            Event::Reply(Result::Err(e)) => fails_with(
                pre,
                post,
                action,
                SweepError::LaserEnable(e),
            ),
            _ => unexpected_rel(pre, post, action),
        },
        Phase::EnablingLaser => match ev {
            Event::Sent(Result::Ok(_)) => {
                &&& post.config == cfg
                &&& post.records == pre.records
                &&& post.current_ua == cfg.start_ua
                &&& issue_set_current_rel(cfg.start_ua as int, post, action)
            },
            Event::Sent(Result::Err(e)) => fails_with(pre, post, action, SweepError::LaserEnable(e)),
            _ => unexpected_rel(pre, post, action),
        },
        Phase::SettingCurrent => match ev {
            Event::Sent(Result::Ok(_)) => moves_to(
                pre,
                post,
                Phase::Stabilizing,
                action,
                Action::Sleep(cfg.stabilization_delay_ms),
            ),
            Event::Sent(Result::Err(e)) => aborts_with(
                pre,
                post,
                action,
                SweepError::SetCurrent { current_ua: pre.current_ua, message: e },
            ),
            _ => unexpected_rel(pre, post, action),
        },
        Phase::Stabilizing => match ev {
            Event::Slept => {
                if cfg.port < 1 || cfg.port > 4 {
                    aborts_with(pre, post, action, SweepError::InvalidPort)
                } else {
                    sends(
                        pre,
                        post,
                        action,
                        Phase::ReadingPower,
                        false,
                        true,
                        spec_read_power_command(cfg.module),
                    )
                }
            },
            _ => unexpected_rel(pre, post, action),
        },
        Phase::ReadingPower => match ev {
            Event::Reply(Result::Ok(response)) => {
                let fields = spec_split(response@);
                if 1 <= cfg.port <= 4 && cfg.port <= fields.len() {
                    &&& post.config == cfg
                    &&& record_appended(pre, post, spec_trim(fields[cfg.port - 1]))
                    &&& sweep_advances(pre, post, action)
                } else {
                    aborts_with(
                        pre,
                        post,
                        action,
                        SweepError::PowerResponseShort { current_ua: pre.current_ua },
                    )
                }
            },
            Event::Reply(Result::Err(e)) => aborts_with(
                pre,
                post,
                action,
                SweepError::ReadPower { current_ua: pre.current_ua, message: e },
            ),
            _ => unexpected_rel(pre, post, action),
        },
        Phase::AbortingLaserOff(err) => match ev {
            Event::Sent(_) => fails_with(pre, post, action, err),
            _ => unexpected_rel(pre, post, action),
        },
        Phase::PostSweepLaserOff => match ev {
            Event::Sent(_) => {
                &&& same_core(pre, post)
                &&& post.phase is Saving
                &&& action matches Action::Save(b) && b@ == csv_encoding(
                    spec_csv_rows(records_view(pre.records@)),
                )
            },
            _ => unexpected_rel(pre, post, action),
        },
        Phase::Saving => match ev {
            Event::Saved(Result::Ok(path)) => {
                &&& same_core(pre, post)
                &&& post.phase is Done
                &&& action == Action::Finish(path)
            },
            Event::Saved(Result::Err(e)) => fails_with(pre, post, action, SweepError::SaveFailed(e)),
            _ => unexpected_rel(pre, post, action),
        },
    }
}

/// The phases of the measuring loop, where `current_ua` is the current now
/// being sampled.
pub open spec fn phase_in_sweep_loop(p: Phase) -> bool {
    p is SettingCurrent || p is Stabilizing || p is ReadingPower
}

/// The phases after the loop has taken every planned sample.
pub open spec fn phase_sweep_complete(p: Phase) -> bool {
    p is PostSweepLaserOff || p is Saving || p is Done
}

/// The phases before the loop has taken any sample.
pub open spec fn phase_before_sweep(p: Phase) -> bool {
    &&& !phase_in_sweep_loop(p)
    &&& !phase_sweep_complete(p)
    &&& !(p is AbortingLaserOff)
    &&& !(p is Failed)
}

/// A record in position `i` holds the `i`-th planned current, the
/// configured module, and some nonempty timestamp.
pub open spec fn planned_record(cfg: CurrentSweepConfig, r: MeasurementRecord, i: int) -> bool {
    &&& r.current_ua as int == cfg.start_ua + i * cfg.step_ua
    &&& r.module == cfg.module
    &&& r.timestamp@.len() > 0
}

/// What every reachable session satisfies: the records taken so far are the
/// planned currents in order; none exist before the loop; inside the loop
/// the set current is the next planned one; and once the sweep completes,
/// the last record holds the greatest planned current not above the stop,
/// so the plan was covered exactly.
pub open spec fn sweep_records_inv(s: SweepSession) -> bool {
    &&& (forall|i: int|
        0 <= i < s.records@.len() ==> planned_record(s.config, #[trigger] s.records@[i], i))
    &&& (phase_before_sweep(s.phase) ==> s.records@.len() == 0)
    &&& (phase_in_sweep_loop(s.phase) ==> s.current_ua as int == s.config.start_ua
        + s.records@.len() * s.config.step_ua)
    &&& (phase_sweep_complete(s.phase) ==> {
        &&& valid_sweep_bounds(s.config)
        &&& s.records@.len() >= 1
        &&& s.records@.last().current_ua <= s.config.stop_ua
        &&& s.config.stop_ua < s.records@.last().current_ua + s.config.step_ua
    })
}

/// A fresh session satisfies the records invariant.
pub proof fn lemma_new_session_records_invariant(s: SweepSession)
    requires
        s.phase is Idle,
        s.records@.len() == 0,
    ensures
        sweep_records_inv(s),
{
}

/// Every step preserves the records invariant: whatever the devices reply,
/// a run only ever appends the next planned current, and it reaches the
/// saving phases only with the plan covered in full.
pub proof fn lemma_step_preserves_records_invariant(
    pre: SweepSession,
    ev: Event,
    post: SweepSession,
    action: Action,
)
    requires
        pre.wf(),
        sweep_records_inv(pre),
        step_rel(pre, ev, post, action),
    ensures
        sweep_records_inv(post),
{
    if pre.phase is ReadingPower {
        if let Event::Reply(Result::Ok(response)) = ev {
            let fields = spec_split(response@);
            if 1 <= pre.config.port <= 4 && pre.config.port <= fields.len() {
                let n = pre.records@.len() as int;
                let st = pre.config.step_ua as int;
                assert(post.records@.len() == n + 1);
                assert forall|i: int| 0 <= i < post.records@.len() implies planned_record(
                    post.config,
                    #[trigger] post.records@[i],
                    i,
                ) by {
                    if i < n {
                        assert(post.records@[i] == post.records@.subrange(0, n)[i]);
                        assert(planned_record(pre.config, pre.records@[i], i));
                    } else {
                        assert(post.records@[i] == post.records@.last());
                    }
                }
                let next = pre.current_ua as int + st;
                if next <= pre.config.stop_ua as int {
                    assert((n + 1) * st == n * st + st) by (nonlinear_arith);
                }
            }
        }
    }
}

/// The general shape of a finished sweep: once the run has reached the
/// saving phases, record `k` holds exactly the `k`-th planned current with
/// the configured module and a nonempty timestamp, and the last record is
/// the greatest planned current not above the stop — with a positive step
/// this determines the number of records uniquely.
pub proof fn lemma_completed_sweep_covers_plan(s: SweepSession, k: int)
    requires
        sweep_records_inv(s),
        phase_sweep_complete(s.phase),
        0 <= k < s.records@.len(),
    ensures
        s.records@[k].current_ua as int == s.config.start_ua + k * s.config.step_ua,
        s.records@[k].module == s.config.module,
        s.records@[k].timestamp@.len() > 0,
        s.records@.last().current_ua <= s.config.stop_ua,
        s.config.stop_ua < s.records@.last().current_ua + s.config.step_ua,
{
    assert(planned_record(s.config, s.records@[k], k));
}

/// How many samples a finished sweep holds: one per planned current, that
/// is `(stop - start) / step + 1`.
pub proof fn lemma_completed_sweep_record_count(s: SweepSession)
    requires
        sweep_records_inv(s),
        phase_sweep_complete(s.phase),
    ensures
        s.records@.len() == (s.config.stop_ua as int - s.config.start_ua as int) / (
        s.config.step_ua as int) + 1,
{
    let n = s.records@.len() as int;
    let st = s.config.step_ua as int;
    let start = s.config.start_ua as int;
    let stop = s.config.stop_ua as int;
    assert(planned_record(s.config, s.records@[n - 1], n - 1));
    vstd::arithmetic::div_mod::lemma_fundamental_div_mod_converse(
        stop - start,
        st,
        n - 1,
        stop - start - (n - 1) * st,
    );
}

/// A current above the safety ceiling is refused wherever the sweep would
/// set it: the run turns the laser off and aborts with the offending value,
/// and the action that goes out is the laser-off command — never a
/// set-current command for any value.
pub proof fn lemma_overlimit_current_refused(target: int, post: SweepSession, action: Action)
    requires
        issue_set_current_rel(target, post, action),
        target > MAX_SAFE_CURRENT_UA,
    ensures
        post.phase matches Phase::AbortingLaserOff(e) && e == (SweepError::CurrentAboveLimit {
            current_ua: target as i64,
        }),
        action matches Action::SendLaser(c) && c@ == spec_laser_output_command(false),
        forall|v: int|
            !(action matches Action::SendLaser(c) && c@ == #[trigger] spec_set_current_command(v)),
{
    assert forall|v: int|
        !(action matches Action::SendLaser(c) && c@ == #[trigger] spec_set_current_command(v)) by {
        crate::numfmt::lemma_scaled_signed_len(v, 6);
        reveal_strlit("OUTPut:STATe OFF");
        reveal_strlit("SOURce:CURRent:LEVel:IMMediate:AMPLitude ");
        assert(spec_laser_output_command(false).len() == 16);
        assert(spec_set_current_command(v).len() >= 42);
    }
}

/// When the TEC-state query before laser-on reports anything but ON, the
/// run fails with the interlock error and the laser-on command is not
/// issued.
pub proof fn lemma_tec_off_blocks_laser(
    pre: SweepSession,
    resp: String,
    post: SweepSession,
    action: Action,
)
    requires
        step_rel(pre, Event::Reply(Result::Ok(resp)), post, action),
        pre.phase is TecRecheck,
        !spec_on_off(resp@),
    ensures
        post.phase is Failed,
        action == Action::Fail(SweepError::TecOff),
        !(action is SendLaser),
{
}

/// A configuration with a nonpositive step or a start above the stop is
/// rejected on the very first event, before any device action has been
/// requested.
pub proof fn lemma_invalid_bounds_rejected(pre: SweepSession, post: SweepSession, action: Action)
    requires
        step_rel(pre, Event::Start, post, action),
        pre.phase is Idle,
        !valid_sweep_bounds(pre.config),
    ensures
        post.phase is Failed,
        action == Action::Fail(SweepError::InvalidSweepParameters),
{
}

/// A finished run, successful or failed, requests nothing further of the
/// devices.
pub proof fn lemma_terminal_halts(pre: SweepSession, ev: Event, post: SweepSession, action: Action)
    requires
        step_rel(pre, ev, post, action),
        pre.phase is Done || pre.phase is Failed,
    ensures
        post.phase == pre.phase,
        action is Halt,
{
}

} // verus!
