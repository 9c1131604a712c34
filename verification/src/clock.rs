//! Wall-clock time, elapsed-time measurement and random identifiers.
//!
//! Every value here depends on the machine's clock or on chance, so the
//! contracts claim only what holds of every outcome.

use std::time::{Instant, SystemTime};
use vstd::prelude::*;

verus! {

#[verifier::external_type_specification]
#[verifier::external_body]
pub struct ExInstant(Instant);

#[verifier::external_type_specification]
#[verifier::external_body]
pub struct ExSystemTime(SystemTime);

/// Calls `std::time::SystemTime::now()`. Nothing is stated of the time.
#[verifier::external_body]
pub(crate) fn system_now() -> SystemTime {
    SystemTime::now()
}

/// Calls `SystemTime::duration_since(UNIX_EPOCH)` and gives the duration in
/// whole milliseconds (`Duration::as_millis`), or `None` where the call
/// fails because `t` lies before the epoch. Which outcome comes, and the
/// amount, depend on the clock and are not stated.
#[verifier::external_body]
pub(crate) fn millis_since_epoch(t: &SystemTime) -> Option<u128> {
    match t.duration_since(std::time::UNIX_EPOCH) {
        Ok(d) => Some(d.as_millis()),
        Err(_) => None,
    }
}

/// The current time in milliseconds since the Unix epoch. A clock set
/// before the epoch reads as the epoch itself, and one past the largest
/// `i64` reads as that largest value, so the result is never negative.
pub(crate) fn now_millis() -> (ms: i64)
    ensures
        ms >= 0,
{
    match millis_since_epoch(&system_now()) {
        Some(ms) => {
            if ms <= i64::MAX as u128 {
                ms as i64
            } else {
                i64::MAX
            }
        },
        None => 0,
    }
}

/// A lower-case hexadecimal digit.
pub open spec fn lower_hex_digit(c: char) -> bool {
    ('0' <= c && c <= '9') || ('a' <= c && c <= 'f')
}

/// The hyphenated lower-case text of a random (version 4, RFC 4122
/// variant) UUID: 36 characters, hyphens at 8, 13, 18 and 23, hexadecimal
/// digits elsewhere, the version digit `4` at 14 and a variant digit of
/// `8`, `9`, `a` or `b` at 19.
pub open spec fn uuid_v4_text(s: Seq<char>) -> bool {
    &&& s.len() == 36
    &&& forall|i: int| 0 <= i < 36 ==> if i == 8 || i == 13 || i == 18 || i == 23 {
        #[trigger] s[i] == '-'
    } else {
        lower_hex_digit(s[i])
    }
    &&& s[14] == '4'
    &&& (s[19] == '8' || s[19] == '9' || s[19] == 'a' || s[19] == 'b')
}

/// Calls `uuid::Uuid::new_v4()` and renders it with `to_string`. `new_v4`
/// sets the version bits to 4 and the variant bits to RFC 4122 over random
/// bits, and uuid's `Display` writes the hyphenated lower-case form, 36
/// characters long. The random digits themselves are not stated.
#[verifier::external_body]
pub(crate) fn new_id() -> (id: String)
    ensures
        id@.len() == 36,
        uuid_v4_text(id@),
{
    uuid::Uuid::new_v4().to_string()
}

/// Calls `std::time::Instant::now()`. Nothing is stated of the instant.
#[verifier::external_body]
pub(crate) fn start_timer() -> Instant {
    Instant::now()
}

/// Calls `Instant::elapsed` and converts the duration to whole
/// milliseconds (`Duration::as_millis`, truncated to `u64`). The amount of
/// time is not stated.
#[verifier::external_body]
pub(crate) fn elapsed_millis(start: &Instant) -> u64 {
    start.elapsed().as_millis() as u64
}

} // verus!
