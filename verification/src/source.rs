//! The two things a generator takes from its surroundings: the wall clock and
//! a random draw.
//!
//! Neither can be predicted, so nothing is claimed about the values read.
//! Both reads are unverified and rest on the operating system: they do not
//! return when it cannot serve them.

use rand::Rng;
use std::time::{SystemTime, UNIX_EPOCH};
use vstd::prelude::*;

verus! {

/// Draws one `u16` from the thread-local generator of the `rand` crate, by
/// `rand::rng()` and `Rng::random::<u16>()`.
///
/// Unverified. Any value may come back, and two draws need not agree, so
/// there is no postcondition. `rand::rng()` panics if the operating system
/// cannot seed the thread's generator.
#[verifier::external_body]
pub(crate) fn random_u16() -> (draw: u16) {
    rand::rng().random::<u16>()
}

/// Reads the wall clock as whole milliseconds since the Unix epoch, by
/// `SystemTime::now()`, `SystemTime::duration_since(UNIX_EPOCH)` and
/// `Duration::as_millis()`.
///
/// Unverified. The reading depends on the moment of the call, so there is no
/// postcondition. A clock set before the epoch is a fault of the machine
/// that cannot be recovered from: the call panics instead of returning a
/// reading.
#[verifier::external_body]
pub(crate) fn unix_millis() -> (millis: u128) {
    SystemTime::now().duration_since(UNIX_EPOCH).unwrap().as_millis()
}

/// The timestamp that stands for a count of milliseconds: its low 64 bits.
pub open spec fn timestamp_of_millis(millis: nat) -> nat {
    millis % 0x1_0000_0000_0000_0000
}

/// Reduces a count of milliseconds to the 64 bits of a timestamp.
pub fn millis_to_timestamp(millis: u128) -> (timestamp: u64)
    ensures
        timestamp == timestamp_of_millis(millis as nat),
{
    let timestamp = #[verifier::truncate] (millis as u64);
    assert(timestamp == millis % 0x1_0000_0000_0000_0000) by (bit_vector)
        requires
            timestamp == millis as u64,
    ;
    timestamp
}

/// The current time as a millisecond timestamp.
pub(crate) fn unix_timestamp() -> (now: u64) {
    millis_to_timestamp(unix_millis())
}

} // verus!
