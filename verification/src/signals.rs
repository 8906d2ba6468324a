//! Turning what the operating system reports into the signals that a tick
//! takes.

use vstd::prelude::*;

verus! {

/// Seconds without user input, from two readings of the system's millisecond
/// tick counter. The counter wraps around, so the difference is taken modulo
/// its range.
pub open spec fn idle_secs_between(tick_count: u32, last_input_tick: u32) -> int {
    (if tick_count >= last_input_tick {
        tick_count - last_input_tick
    } else {
        tick_count - last_input_tick + 0x1_0000_0000
    }) / 1000
}

/// Seconds without user input, from the tick counter now and at the last
/// input.
pub fn idle_seconds(tick_count: u32, last_input_tick: u32) -> (r: u64)
    ensures
        r == idle_secs_between(tick_count, last_input_tick),
{
    let idle_ms: u32 = tick_count.wrapping_sub(last_input_tick);
    (idle_ms / 1000) as u64
}

/// Whether a user-notification state asks for silence: a full-screen
/// application (2), a full-screen Direct3D application (3), presentation
/// mode (4) or quiet time (6).
pub open spec fn asks_for_silence(state: i32) -> bool {
    state == 2 || state == 3 || state == 4 || state == 6
}

/// Whether do-not-disturb is active in the given user-notification state.
pub fn is_dnd_state(state: i32) -> (r: bool)
    ensures
        r == asks_for_silence(state),
{
    state == 2 || state == 3 || state == 4 || state == 6
}

} // verus!
