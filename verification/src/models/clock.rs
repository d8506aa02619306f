use vstd::prelude::*;

verus! {

/// A reading of the system clock (`std::time::SystemTime`), held opaque.
#[verifier::external_type_specification]
#[verifier::external_body]
pub struct ExSystemTime(std::time::SystemTime);

/// Reads the wall clock: `std::time::SystemTime::now()`.
///
/// The value depends on the time of the call only, so nothing is stated of it.
#[verifier::external_body]
pub(crate) fn system_now() -> (t: std::time::SystemTime) {
    std::time::SystemTime::now()
}

/// `t.duration_since(std::time::UNIX_EPOCH)`, taken as whole seconds
/// (`Duration::as_secs`) and the nanoseconds past them
/// (`Duration::subsec_nanos`): `Ok` with the distance after the Unix epoch
/// when `t` is not before it, `Err` with the distance before it otherwise
/// (`SystemTimeError::duration`). It never panics.
///
/// Stated: the nanoseconds are below 10^9, as `subsec_nanos` documents. The
/// distance itself is left unsaid: it is that of the clock reading `t`,
/// which Verus holds opaque.
#[verifier::external_body]
pub(crate) fn since_epoch(t: &std::time::SystemTime) -> (r: Result<(u64, u32), (u64, u32)>)
    ensures
        match r {
            Ok((_, nanos)) => nanos < 1_000_000_000,
            Err((_, nanos)) => nanos < 1_000_000_000,
        },
{
    match t.duration_since(std::time::UNIX_EPOCH) {
        Ok(d) => Ok((d.as_secs(), d.subsec_nanos())),
        Err(e) => Err((e.duration().as_secs(), e.duration().subsec_nanos())),
    }
}

} // verus!
