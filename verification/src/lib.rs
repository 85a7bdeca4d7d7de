//! Verified control logic for a laser-diode current sweep experiment.
//!
//! The library holds everything the procedure decides or computes: the
//! instrument command grammar, response parsing, the safety interlocks
//! (current ceiling, TEC-before-laser, reset verification), the error-queue
//! drain, the sweep orchestration state machine, and the CSV persistence
//! format.  The transports themselves (an instrument bus for the laser
//! driver, a TCP socket for the power meter) live outside the library; a
//! driver performs each requested action and feeds the outcome back in.

pub mod cld1015;
pub mod drain;
pub mod mpm210h;
pub mod numfmt;
pub mod records;
pub mod sweep;
pub mod text;

use vstd::prelude::*;

verus! {

/// Laser currents are measured in microamps throughout the library, so that
/// the milliamp values of the experiment configuration and the amp values of
/// the wire commands are both exact integers.
pub const MAX_SAFE_CURRENT_UA: i64 = 1_500_000;

} // verus!
