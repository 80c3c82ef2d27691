use vstd::prelude::*;

verus! {

/// The time now, in seconds since the start of 1970 (UTC), as
/// `chrono::Utc::now` reads it from the system clock. Nothing is promised
/// of the value: two calls may differ in either direction. The call does
/// not return where the system clock stands before 1970.
#[verifier::external_body]
pub(crate) fn current_timestamp() -> (now: i64) {
    chrono::Utc::now().timestamp()
}

} // verus!
