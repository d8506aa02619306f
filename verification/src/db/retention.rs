use vstd::prelude::*;

use crate::models::instant::{rfc3339_of_ns, timestamp_text};

verus! {

/// Nanoseconds in a day.
pub const NANOS_PER_DAY: i128 = 86_400_000_000_000;

/// The instant before which results are purged: `retention_days` days
/// before `now_ns` (nanoseconds since the Unix epoch).
pub open spec fn cutoff_value(now_ns: i128, retention_days: u32) -> int {
    now_ns - retention_days * NANOS_PER_DAY
}

/// The cutoff of history retention, in nanoseconds since the Unix epoch:
/// results stamped before `now_ns - retention_days` days are purged. `None`
/// when the cutoff does not fit in `i128`.
pub fn retention_cutoff_ns(now_ns: i128, retention_days: u32) -> (r: Option<i128>)
    ensures
        cutoff_value(now_ns, retention_days) >= i128::MIN ==> r == Some(
            cutoff_value(now_ns, retention_days) as i128,
        ),
        cutoff_value(now_ns, retention_days) < i128::MIN ==> r is None,
        r matches Some(c) ==> c == now_ns - retention_days * 86_400_000_000_000,
{
    let days = retention_days as i128;
    assert(days * NANOS_PER_DAY <= 4294967295 * 86_400_000_000_000) by (nonlinear_arith)
        requires
            0 <= days <= 4294967295,
    ;
    assert(days * NANOS_PER_DAY >= 0) by (nonlinear_arith)
        requires
            0 <= days,
    ;
    let span = days * NANOS_PER_DAY;
    now_ns.checked_sub(span)
}

/// The RFC 3339 text of the retention cutoff (see `retention_cutoff_ns`),
/// as stored timestamps are written; `None` when the cutoff does not fit in
/// `i128` or has no text.
pub fn retention_cutoff_text(now_ns: i128, retention_days: u32) -> (r: Option<String>)
    ensures
        cutoff_value(now_ns, retention_days) < i128::MIN ==> r is None,
        cutoff_value(now_ns, retention_days) >= i128::MIN ==> match r {
            Some(s) => rfc3339_of_ns(cutoff_value(now_ns, retention_days)) == Some(s@),
            None => rfc3339_of_ns(cutoff_value(now_ns, retention_days)) is None,
        },
{
    match retention_cutoff_ns(now_ns, retention_days) {
        Some(c) => timestamp_text(c),
        None => None,
    }
}

/// The cutoff lies exactly `retention_days` whole days (of 86,400 seconds)
/// before now, for every number of days: no retention keeps nothing before
/// now, and each further day of retention moves the cutoff one day earlier.
pub proof fn lemma_cutoff_is_whole_days_back(now_ns: i128, retention_days: u32)
    ensures
        cutoff_value(now_ns, retention_days) == now_ns - retention_days * 86_400_000_000_000,
        cutoff_value(now_ns, 0) == now_ns,
        retention_days < u32::MAX ==> cutoff_value(now_ns, retention_days) - cutoff_value(
            now_ns,
            (retention_days + 1) as u32,
        ) == 86_400_000_000_000,
{
    assert(retention_days * 86_400_000_000_000 + 86_400_000_000_000 == (retention_days + 1)
        * 86_400_000_000_000) by (nonlinear_arith);
}

} // verus!
