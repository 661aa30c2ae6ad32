use vstd::prelude::*;

verus! {

/// Relies on chrono::Utc::now: the current Unix timestamp in seconds.
/// Nothing can be promised of a clock reading.
#[verifier::external_body]
fn chrono_now_timestamp() -> i64 {
    chrono::Utc::now().timestamp()
}

/// The current Unix timestamp, clamped to zero for the store and token
/// arithmetic, which work on unsigned seconds.
pub fn now_timestamp() -> u64 {
    let t = chrono_now_timestamp();
    if t < 0 {
        0
    } else {
        t as u64
    }
}

} // verus!
