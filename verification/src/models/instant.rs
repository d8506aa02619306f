use vstd::prelude::*;

use super::clock::{since_epoch, system_now};
use crate::db::codec::{format_instant, in_four_digit_years, instant_of_rfc3339, parse_instant, rfc3339_of_instant};

verus! {

/// Nanoseconds in a second.
pub const NANOS_PER_SEC: i128 = 1_000_000_000;

/// The instant `secs` seconds and `nanos` nanoseconds after the Unix epoch,
/// in nanoseconds since the epoch.
pub open spec fn instant_value(secs: i64, nanos: u32) -> int {
    secs * NANOS_PER_SEC + nanos
}

/// The whole seconds (rounded down) of the instant `ns` (nanoseconds since
/// the Unix epoch), and the nanoseconds past them.
pub open spec fn instant_parts(ns: int) -> (int, int) {
    (ns / (NANOS_PER_SEC as int), ns % (NANOS_PER_SEC as int))
}

/// Whether the instant `ns` (nanoseconds since the Unix epoch) falls in the
/// years 0000 through 9999.
pub open spec fn ns_in_four_digit_years(ns: int) -> bool {
    in_four_digit_years(instant_parts(ns).0)
}

/// The RFC 3339 text that chrono writes for the instant `ns` (nanoseconds
/// since the Unix epoch); `None` when its seconds leave `i64` or chrono
/// refuses them.
pub open spec fn rfc3339_of_ns(ns: int) -> Option<Seq<char>> {
    let (secs, nanos) = instant_parts(ns);
    if i64::MIN <= secs <= i64::MAX {
        rfc3339_of_instant(secs as i64, nanos as u32)
    } else {
        None
    }
}

/// The instant, in nanoseconds since the Unix epoch, that chrono reads from
/// an RFC 3339 text; `None` when it rejects the text.
pub open spec fn ns_of_rfc3339(text: Seq<char>) -> Option<int> {
    match instant_of_rfc3339(text) {
        Some((secs, nanos)) => Some(instant_value(secs, nanos)),
        None => None,
    }
}

/// The instant `secs` seconds and `nanos` nanoseconds after the Unix epoch,
/// in nanoseconds.
pub fn instant_ns(secs: i64, nanos: u32) -> (ns: i128)
    ensures
        ns == instant_value(secs, nanos),
{
    let s = secs as i128;
    assert(-0x8000_0000_0000_0000 * 1_000_000_000 <= s * 1_000_000_000 <= 0x7fff_ffff_ffff_ffff
        * 1_000_000_000) by (nonlinear_arith)
        requires
            -0x8000_0000_0000_0000 <= s <= 0x7fff_ffff_ffff_ffff,
    ;
    s * NANOS_PER_SEC + nanos as i128
}

/// The latest instant a clock reading can stand for: `u64::MAX` seconds and
/// 999,999,999 nanoseconds after the Unix epoch (before it, negated).
pub const CLOCK_REACH_NS: i128 = 18_446_744_073_709_551_615_999_999_999;

/// The instant, in nanoseconds since the Unix epoch, that a clock reading
/// stands for: `Ok((secs, nanos))` is that far after the epoch,
/// `Err((secs, nanos))` that far before it.
pub open spec fn reading_value(reading: Result<(u64, u32), (u64, u32)>) -> int {
    match reading {
        Ok((secs, nanos)) => secs * NANOS_PER_SEC + nanos,
        Err((secs, nanos)) => -(secs * NANOS_PER_SEC + nanos),
    }
}

/// The instant, in nanoseconds since the Unix epoch (negative before it),
/// of a clock reading given as its distance from the epoch: `Ok` after it,
/// `Err` before it, each as whole seconds and the nanoseconds past them.
pub fn instant_of_reading(reading: Result<(u64, u32), (u64, u32)>) -> (ns: i128)
    requires
        match reading {
            Ok((_, nanos)) => nanos < 1_000_000_000,
            Err((_, nanos)) => nanos < 1_000_000_000,
        },
    ensures
        ns == reading_value(reading),
        -CLOCK_REACH_NS <= ns <= CLOCK_REACH_NS,
{
    let (secs, nanos, before) = match reading {
        Ok((s, n)) => (s, n, false),
        Err((s, n)) => (s, n, true),
    };
    let s = secs as i128;
    assert(0 <= s * 1_000_000_000 <= 18_446_744_073_709_551_615 * 1_000_000_000) by (nonlinear_arith)
        requires
            0 <= s <= 18_446_744_073_709_551_615,
    ;
    let magnitude = s * NANOS_PER_SEC + nanos as i128;
    if before {
        -magnitude
    } else {
        magnitude
    }
}

/// The current time, in nanoseconds since the Unix epoch (negative before
/// it): the system clock's reading, converted by `instant_of_reading`.
///
/// What holds of every reading: it lies within `CLOCK_REACH_NS` of the
/// epoch. A clock set before 1970 gives a negative instant, not a failure.
pub fn current_time_ns() -> (ns: i128)
    ensures
        -CLOCK_REACH_NS <= ns <= CLOCK_REACH_NS,
{
    let now = system_now();
    instant_of_reading(since_epoch(&now))
}

/// The whole seconds (rounded down) of the instant `ns` and the nanoseconds
/// past them.
fn split_instant(ns: i128) -> (r: (i128, u32))
    ensures
        r.0 == instant_parts(ns as int).0,
        r.1 == instant_parts(ns as int).1,
{
    if ns >= 0 {
        let m = ns as u128;
        let q = m / 1_000_000_000;
        let rem = m % 1_000_000_000;
        ((q as i128), (rem as u32))
    } else {
        let m = (-(ns + 1)) as u128;
        let q = m / 1_000_000_000;
        let rem = m % 1_000_000_000;
        assert(ns == -(m as int) - 1);
        assert((-(q as int) - 1) * 1_000_000_000 + (999_999_999 - rem as int) == ns);
        (-(q as i128) - 1, (999_999_999 - rem) as u32)
    }
}

/// The RFC 3339 text of the instant `ns` (nanoseconds since the Unix epoch),
/// as chrono writes it (`DateTime::to_rfc3339`); `None` when the instant's
/// seconds leave `i64` or chrono refuses them. An instant of the years 0000
/// through 9999 always has a text, and chrono reads the same instant back
/// from it.
pub fn timestamp_text(ns: i128) -> (r: Option<String>)
    ensures
        match r {
            Some(s) => rfc3339_of_ns(ns as int) == Some(s@),
            None => rfc3339_of_ns(ns as int) is None,
        },
        ns_in_four_digit_years(ns as int) ==> (r matches Some(s) && ns_of_rfc3339(s@) == Some(
            ns as int,
        )),
{
    let (secs, nanos) = split_instant(ns);
    if secs < i64::MIN as i128 || secs > i64::MAX as i128 {
        return None;
    }
    format_instant(secs as i64, nanos)
}

/// The instant, in nanoseconds since the Unix epoch, that an RFC 3339 text
/// stands for (read by chrono's `DateTime::parse_from_rfc3339`); `None` when
/// chrono rejects the text.
pub fn timestamp_from_text(text: &str) -> (r: Option<i128>)
    ensures
        match r {
            Some(v) => ns_of_rfc3339(text@) == Some(v as int),
            None => ns_of_rfc3339(text@) is None,
        },
{
    match parse_instant(text) {
        Some((secs, nanos)) => Some(instant_ns(secs, nanos)),
        None => None,
    }
}

} // verus!
