use vstd::prelude::*;

verus! {

/// Relies on chrono::Utc::now and DateTime::timestamp: the current time in
/// epoch seconds. Nothing is promised of the value.
#[verifier::external_body]
pub(crate) fn current_timestamp() -> (r: i64) {
    chrono::Utc::now().timestamp()
}

} // verus!
