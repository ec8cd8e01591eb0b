use vstd::prelude::*;

verus! {

/// Whether a UTC date-time lies `secs` seconds after the Unix epoch within the
/// calendar range that chrono supports.
pub uninterp spec fn representable_timestamp(secs: i64) -> bool;

/// Relies on chrono's `DateTime::<Utc>::from_timestamp` (zero nanoseconds) and
/// `DateTime::timestamp`: the first returns `None` where `secs` lies outside the
/// supported range, and otherwise a date-time that the second maps back to `secs`.
#[verifier::external_body]
pub(crate) fn resolve_timestamp(secs: i64) -> (r: Option<i64>)
    ensures
        r == (if representable_timestamp(secs) { Some(secs) } else { None::<i64> }),
{
    chrono::DateTime::<chrono::Utc>::from_timestamp(secs, 0).map(|t| t.timestamp())
}

} // verus!
