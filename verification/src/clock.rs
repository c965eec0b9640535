//! Wall-clock time, used only to stamp vote records.
use vstd::prelude::*;

verus! {

/// Relies on chrono's `Utc::now` and `DateTime::timestamp_millis`: the number
/// of non-leap milliseconds since the Unix epoch. The result depends on the
/// machine clock, so nothing can be promised of it. Chrono's own conversion
/// aborts on a clock set before the Unix epoch; that condition depends on
/// the machine, not on any input, so no `requires` can exclude it, and the
/// body stays the bare call.
#[verifier::external_body]
pub(crate) fn now_millis() -> (t: i64)
{
    chrono::Utc::now().timestamp_millis()
}

} // verus!
