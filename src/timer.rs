use vstd::prelude::*;

verus! {

/// Length of one timer clock cycle in nanoseconds: a sixtieth of a second.
pub const TIMER_PERIOD_NANOS: u64 = 16_666_666;

/// How long the timer clock sleeps after a cycle whose work took
/// `elapsed_nanos`: the rest of the period, or nothing where the work
/// took the whole period or more.
pub fn cycle_sleep_nanos(elapsed_nanos: u64) -> (r: u64)
    ensures
        elapsed_nanos < TIMER_PERIOD_NANOS ==> r == TIMER_PERIOD_NANOS - elapsed_nanos,
        elapsed_nanos >= TIMER_PERIOD_NANOS ==> r == 0,
{
    if elapsed_nanos < TIMER_PERIOD_NANOS {
        TIMER_PERIOD_NANOS - elapsed_nanos
    } else {
        0
    }
}

} // verus!
