//! Readings of the clocks and fresh random identifiers. Nothing is claimed
//! of a reading; callers state what holds whatever it is.
use vstd::prelude::*;
use chrono::Utc;
use rand::RngCore;
use std::time::{Duration, Instant};

verus! {

/// `Utc::now()` as nanoseconds since the Unix epoch
/// (`timestamp_nanos_opt`, `None` past the year 2262). Nothing is claimed
/// of the reading.
#[verifier::external_body]
pub(crate) fn utc_now_nanos() -> (t: Option<i64>) {
    Utc::now().timestamp_nanos_opt()
}

/// `Uuid::new_v4().to_string()`: a fresh random version 4 UUID in its
/// hyphenated form. The contract claims only its length, 36 characters.
#[verifier::external_body]
pub(crate) fn new_uuid() -> (s: String)
    ensures
        s@.len() == 36,
{
    uuid::Uuid::new_v4().to_string()
}


/// The first 12 bytes of a fresh random version 4 UUID
/// (`Uuid::new_v4().as_bytes()[..12]`), used as an AES-GCM nonce. The
/// contract claims only the length.
#[verifier::external_body]
pub(crate) fn uuid_nonce() -> (r: Vec<u8>)
    ensures
        r@.len() == 12,
{
    uuid::Uuid::new_v4().as_bytes()[..12].to_vec()
}

/// 16 bytes from `rand::thread_rng().fill_bytes`. The contract claims only
/// the length.
#[verifier::external_body]
pub(crate) fn random_salt() -> (r: Vec<u8>)
    ensures
        r@.len() == 16,
{
    let mut salt = [0u8; 16];
    rand::thread_rng().fill_bytes(&mut salt);
    salt.to_vec()
}


#[verifier::external_type_specification]
#[verifier::external_body]
pub struct ExInstant(Instant);

/// `Instant::now`: a reading of the monotonic clock. Nothing is claimed of
/// it.
#[verifier::external_body]
pub(crate) fn clock_now() -> (t: Instant) {
    Instant::now()
}

/// `Instant::elapsed`: the time since `start`. Nothing is claimed of it.
#[verifier::external_body]
pub(crate) fn time_since(start: &Instant) -> (d: Duration) {
    start.elapsed()
}

/// `Duration::as_millis`: whole milliseconds of `d`. Nothing is claimed of
/// the result, as nothing is known of `d`.
#[verifier::external_body]
pub(crate) fn whole_millis(d: &Duration) -> (ms: u128) {
    d.as_millis()
}

/// `Duration::as_nanos`: whole nanoseconds of `d`. Nothing is claimed of
/// the result, as nothing is known of `d`.
#[verifier::external_body]
pub(crate) fn whole_nanos(d: &Duration) -> (ns: u128) {
    d.as_nanos()
}

} // verus!
