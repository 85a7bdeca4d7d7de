//! Protocol logic for the MPM-210H optical power meter: the command grammar,
//! argument validation, and the parsing of the per-module power response
//! into the value of one port.  The TCP transport lives in the driver
//! program.

use vstd::prelude::*;

use crate::numfmt::{push_u64, scaled_string_u64, spec_digits, spec_scaled};
use crate::text::{lemma_split_at_comma, lemma_split_no_comma, spec_split, spec_trim, trim_str};

verus! {

/// The power meter adapter's failure classes: transport trouble (carrying
/// the driver's description), a response or argument of the wrong shape, and
/// use before a connection exists.
#[derive(Debug, PartialEq, Eq)]
pub enum MPM210HError {
    IoError(String),
    ParseError,
    NotConnected,
}

pub open spec fn spec_mpm_idn_query() -> Seq<char> {
    "*IDN?"@
}

pub open spec fn spec_modules_query() -> Seq<char> {
    "IDIS?"@
}

pub open spec fn spec_zero_command() -> Seq<char> {
    "ZERO"@
}

pub open spec fn spec_wavelength_query() -> Seq<char> {
    "WAV?"@
}

pub open spec fn spec_mpm_error_query() -> Seq<char> {
    "ERR?"@
}

pub open spec fn spec_read_power_command(module: u8) -> Seq<char> {
    "READ? "@ + spec_digits(module as nat)
}

pub open spec fn spec_wavelength_command(nm: u32) -> Seq<char> {
    "WAV "@ + spec_digits(nm as nat)
}

pub open spec fn spec_measurement_mode_command(mode: Seq<char>) -> Seq<char> {
    "WMOD "@ + mode
}

/// The averaging time is carried in microseconds and printed in
/// milliseconds.
pub open spec fn spec_averaging_command(avg_us: nat) -> Seq<char> {
    "AVG "@ + spec_scaled(avg_us, 3)
}

pub open spec fn spec_unit_command(unit: u8) -> Seq<char> {
    "UNIT "@ + spec_digits(unit as nat)
}

pub fn mpm_idn_query() -> (r: String)
    ensures
        r@ == spec_mpm_idn_query(),
{
    String::from_str("*IDN?")
}

pub fn modules_query() -> (r: String)
    ensures
        r@ == spec_modules_query(),
{
    String::from_str("IDIS?")
}

pub fn zero_command() -> (r: String)
    ensures
        r@ == spec_zero_command(),
{
    String::from_str("ZERO")
}

pub fn wavelength_query() -> (r: String)
    ensures
        r@ == spec_wavelength_query(),
{
    String::from_str("WAV?")
}

pub fn mpm_error_query() -> (r: String)
    ensures
        r@ == spec_mpm_error_query(),
{
    String::from_str("ERR?")
}

pub fn read_power_command(module: u8) -> (r: String)
    ensures
        r@ == spec_read_power_command(module),
{
    let mut cmd = String::from_str("READ? ");
    push_u64(&mut cmd, module as u64);
    cmd
}

pub fn wavelength_command(nm: u32) -> (r: String)
    ensures
        r@ == spec_wavelength_command(nm),
{
    let mut cmd = String::from_str("WAV ");
    push_u64(&mut cmd, nm as u64);
    cmd
}

pub fn measurement_mode_command(mode: &str) -> (r: String)
    ensures
        r@ == spec_measurement_mode_command(mode@),
{
    let mut cmd = String::from_str("WMOD ");
    cmd.append(mode);
    cmd
}

pub fn averaging_command(avg_us: u64) -> (r: String)
    ensures
        r@ == spec_averaging_command(avg_us as nat),
{
    let mut cmd = String::from_str("AVG ");
    let arg = scaled_string_u64(avg_us, 3);
    cmd.append(arg.as_str());
    cmd
}

/// The unit-select command, refused for codes other than 0 (dBm) and 1
/// (mW).
pub fn unit_command(unit: u8) -> (r: Result<String, MPM210HError>)
    ensures
        unit > 1 <==> r is Err,
        r matches Err(e) ==> e is ParseError,
        r matches Ok(cmd) ==> cmd@ == spec_unit_command(unit),
{
    if unit > 1 {
        Err(MPM210HError::ParseError)
    } else {
        let mut cmd = String::from_str("UNIT ");
        push_u64(&mut cmd, unit as u64);
        Ok(cmd)
    }
}

/// Extract one port's power reading from the comma-separated per-module
/// response.  Ports count from 1 and at most 4 exist; the response must hold
/// at least `port` fields, and the chosen field is returned with surrounding
/// whitespace removed.
pub fn port_power_from_response(response: &str, port: u8) -> (r: Result<String, MPM210HError>)
    ensures
        r is Ok <==> (1 <= port <= 4 && port <= spec_split(response@).len()),
        r matches Ok(p) ==> p@ == spec_trim(spec_split(response@)[port - 1]),
        r matches Err(e) ==> e is ParseError,
{
    if port < 1 || port > 4 {
        return Err(MPM210HError::ParseError);
    }
    let t: usize = (port - 1) as usize;
    let n = response.unicode_len();
    let ghost s = response@;
    let mut i: usize = 0;
    let mut start: usize = 0;
    let mut k: usize = 0;
    let ghost mut done: Seq<Seq<char>> = Seq::empty();
    proof {
        assert(s.skip(0) =~= s);
        assert(Seq::<Seq<char>>::empty() + spec_split(s) =~~= spec_split(s));
    }
    while k < t
        invariant
            1 <= port <= 4,
            t == port - 1,
            k <= t <= 3,
            start <= i <= n == s.len(),
            s == response@,
            done.len() == k,
            spec_split(s) == done + spec_split(s.skip(start as int)),
            forall|j: int| start <= j < i ==> s[j] != ',',
        decreases n - i,
    {
        if i == n {
            proof {
                assert(forall|j: int|
                    0 <= j < s.skip(start as int).len() ==> s.skip(start as int)[j] == s[j
                        + start as int]);
                lemma_split_no_comma(s.skip(start as int));
                assert(spec_split(s) =~~= done + seq![s.skip(start as int)]);
                assert(spec_split(s).len() == k + 1);
                assert(k + 1 < port);
            }
            return Err(MPM210HError::ParseError);
        }
        let c = response.get_char(i);
        if c == ',' {
            proof {
                let rel = i - start;
                assert(s.skip(start as int)[rel] == s[i as int]);
                assert(forall|j: int|
                    0 <= j < rel ==> s.skip(start as int)[j] == s[j + start as int]);
                lemma_split_at_comma(s.skip(start as int), rel);
                assert(s.skip(start as int).skip(rel + 1) =~= s.skip(i + 1));
                done = done + seq![s.skip(start as int).take(rel)];
                assert(spec_split(s) =~~= done + spec_split(s.skip(i + 1)));
            }
            k = k + 1;
            i = i + 1;
            start = i;
        } else {
            i = i + 1;
        }
    }
    while i < n && response.get_char(i) != ','
        invariant
            1 <= port <= 4,
            t == port - 1,
            k == t <= 3,
            start <= i <= n == s.len(),
            s == response@,
            done.len() == k,
            spec_split(s) == done + spec_split(s.skip(start as int)),
            forall|j: int| start <= j < i ==> s[j] != ',',
        decreases n - i,
    {
        i = i + 1;
    }
    proof {
        lemma_split_nonempty_use(s, done, start as int, i as int, n as int);
    }
    let field = response.substring_char(start, i);
    let trimmed = trim_str(field);
    Ok(trimmed.to_owned())
}

proof fn lemma_split_nonempty_use(s: Seq<char>, done: Seq<Seq<char>>, start: int, i: int, n: int)
    requires
        0 <= start <= i <= n == s.len(),
        spec_split(s) == done + spec_split(s.skip(start)),
        forall|j: int| start <= j < i ==> s[j] != ',',
        i == n || s[i] == ',',
    ensures
        spec_split(s).len() >= done.len() + 1,
        spec_split(s)[done.len() as int] == s.subrange(start, i),
{
    if i == n {
        lemma_split_no_comma(s.skip(start));
        assert(s.skip(start) =~= s.subrange(start, i));
    } else {
        let rel = i - start;
        assert(s.skip(start)[rel] == s[i]);
        assert(forall|j: int| 0 <= j < rel ==> s.skip(start)[j] == s[j + start]);
        lemma_split_at_comma(s.skip(start), rel);
        assert(s.skip(start).take(rel) =~= s.subrange(start, i));
        crate::text::lemma_split_nonempty(s.skip(start).skip(rel + 1));
    }
}

} // verus!
