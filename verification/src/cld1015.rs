//! Protocol and safety logic for the CLD1015 laser diode driver: the command
//! grammar, the interpretation of its query responses, the current safety
//! ceiling, the TEC-before-laser interlock, and reset verification.  Sending
//! the commands over the instrument bus is the driver program's job.

use vstd::prelude::*;

use crate::MAX_SAFE_CURRENT_UA;
use crate::numfmt::{scaled_string, spec_scaled_signed};
use crate::text::{parse_on_off, spec_on_off};

verus! {

/// A failure the laser driver adapter can decide on its own, before or after
/// the transport: a value outside the safety range, the TEC interlock, or a
/// reset that did not confirm completion.
#[derive(Debug, PartialEq, Eq)]
pub enum CLD1015Error {
    /// A requested current lies above the safety ceiling.
    CurrentAboveLimit,
    /// The TEC reported OFF when the laser output was to be enabled.
    TecOff,
    /// The completion query after a reset returned the carried response
    /// instead of `1`.
    ResetIncomplete(String),
}

pub open spec fn spec_idn_query() -> Seq<char> {
    "*IDN?"@
}

pub open spec fn spec_tec_on_command() -> Seq<char> {
    "OUTPut2:STATe ON"@
}

pub open spec fn spec_tec_state_query() -> Seq<char> {
    "OUTPut2:STATe?"@
}

pub open spec fn spec_current_mode_command() -> Seq<char> {
    "SOURce:FUNCtion:MODE CURRent"@
}

pub open spec fn spec_laser_state_query() -> Seq<char> {
    "OUTPut:STATe?"@
}

pub open spec fn spec_laser_output_command(enabled: bool) -> Seq<char> {
    if enabled {
        "OUTPut:STATe ON"@
    } else {
        "OUTPut:STATe OFF"@
    }
}

pub open spec fn spec_error_query() -> Seq<char> {
    "SYST:ERR?"@
}

pub open spec fn spec_reset_command() -> Seq<char> {
    "*RST"@
}

pub open spec fn spec_opc_query() -> Seq<char> {
    "*OPC?"@
}

pub open spec fn spec_current_query() -> Seq<char> {
    "SOURce:CURRent:LEVel:IMMediate:AMPLitude?"@
}

/// The command that sets the laser current, with its argument in amps: the
/// microamp value scaled by a million.
pub open spec fn spec_set_current_command(current_ua: int) -> Seq<char> {
    "SOURce:CURRent:LEVel:IMMediate:AMPLitude "@ + spec_scaled_signed(current_ua, 6)
}

pub fn idn_query() -> (r: String)
    ensures
        r@ == spec_idn_query(),
{
    String::from_str("*IDN?")
}

pub fn tec_on_command() -> (r: String)
    ensures
        r@ == spec_tec_on_command(),
{
    String::from_str("OUTPut2:STATe ON")
}

pub fn tec_state_query() -> (r: String)
    ensures
        r@ == spec_tec_state_query(),
{
    String::from_str("OUTPut2:STATe?")
}

pub fn current_mode_command() -> (r: String)
    ensures
        r@ == spec_current_mode_command(),
{
    String::from_str("SOURce:FUNCtion:MODE CURRent")
}

pub fn laser_state_query() -> (r: String)
    ensures
        r@ == spec_laser_state_query(),
{
    String::from_str("OUTPut:STATe?")
}

pub fn laser_output_command(enabled: bool) -> (r: String)
    ensures
        r@ == spec_laser_output_command(enabled),
{
    if enabled {
        String::from_str("OUTPut:STATe ON")
    } else {
        String::from_str("OUTPut:STATe OFF")
    }
}

pub fn error_query() -> (r: String)
    ensures
        r@ == spec_error_query(),
{
    String::from_str("SYST:ERR?")
}

pub fn reset_command() -> (r: String)
    ensures
        r@ == spec_reset_command(),
{
    String::from_str("*RST")
}

pub fn opc_query() -> (r: String)
    ensures
        r@ == spec_opc_query(),
{
    String::from_str("*OPC?")
}

pub fn current_query() -> (r: String)
    ensures
        r@ == spec_current_query(),
{
    String::from_str("SOURce:CURRent:LEVel:IMMediate:AMPLitude?")
}

/// The set-current command for `current_ua`, refused above the safety
/// ceiling: no command exists for an unsafe current.
pub fn set_current_command(current_ua: i64) -> (r: Result<String, CLD1015Error>)
    ensures
        current_ua > MAX_SAFE_CURRENT_UA <==> r is Err,
        r matches Err(e) ==> e is CurrentAboveLimit,
        r matches Ok(cmd) ==> cmd@ == spec_set_current_command(current_ua as int),
{
    if current_ua > MAX_SAFE_CURRENT_UA {
        Err(CLD1015Error::CurrentAboveLimit)
    } else {
        let mut cmd = String::from_str("SOURce:CURRent:LEVel:IMMediate:AMPLitude ");
        let arg = scaled_string(current_ua, 6);
        cmd.append(arg.as_str());
        Ok(cmd)
    }
}

/// The laser-on decision: the laser-on command is produced exactly when the
/// TEC state query reported ON; otherwise the interlock refuses, and no
/// command exists to send.
pub fn laser_enable_decision(tec_response: &str) -> (r: Result<String, CLD1015Error>)
    ensures
        spec_on_off(tec_response@) <==> r is Ok,
        r matches Ok(cmd) ==> cmd@ == spec_laser_output_command(true),
        r matches Err(e) ==> e is TecOff,
{
    if parse_on_off(tec_response) {
        Ok(laser_output_command(true))
    } else {
        Err(CLD1015Error::TecOff)
    }
}

/// The reply that the completion query must give for a reset to count as
/// done.
pub open spec fn spec_reset_complete(s: Seq<char>) -> bool {
    s.len() == 1 && s[0] == '1'
}

/// Verdict on the completion query sent after a reset: exactly the response
/// `1` confirms it; any other response is an explicit failure carrying that
/// response.
pub fn reset_verify(status: &str) -> (r: Result<(), CLD1015Error>)
    ensures
        spec_reset_complete(status@) <==> r is Ok,
        r matches Err(e) ==> e matches CLD1015Error::ResetIncomplete(s) && s@ == status@,
{
    let n = status.unicode_len();
    if n == 1 && status.get_char(0) == '1' {
        Ok(())
    } else {
        Err(CLD1015Error::ResetIncomplete(status.to_owned()))
    }
}

} // verus!
