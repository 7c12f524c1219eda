//! The backoff of Google Cloud Workflows, in whole milliseconds.
use vstd::prelude::*;

verus! {

/// The delay in milliseconds after the failure of attempt number `attempts`:
/// the initial delay after the first, and from the second on the delay as the
/// multiplier has grown it for that attempt, capped at the maximum delay.
pub fn delay_millis(
    attempts: usize,
    initial_delay_millis: u64,
    grown_delay_millis: u64,
    max_delay_millis: u64,
) -> (millis: u64)
    requires
        attempts >= 1,
    ensures
        millis == if attempts == 1 {
            initial_delay_millis
        } else if grown_delay_millis <= max_delay_millis {
            grown_delay_millis
        } else {
            max_delay_millis
        },
{
    if attempts == 1 {
        initial_delay_millis
    } else if grown_delay_millis <= max_delay_millis {
        grown_delay_millis
    } else {
        max_delay_millis
    }
}

} // verus!
