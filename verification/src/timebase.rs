//! Integer time arithmetic shared by the scheduler.
//!
//! Instants are signed millisecond counts on a monotonic clock whose zero is
//! arbitrary. Every operation is total: where the exact result would leave the
//! range of `i64` it is clamped to the nearest bound.

use vstd::prelude::*;

verus! {

/// Milliseconds in one minute.
pub const MS_PER_MIN: u64 = 60000;

/// The nearest value to `x` that an `i64` can hold.
pub open spec fn clamp_i64(x: int) -> int {
    if x < i64::MIN {
        i64::MIN as int
    } else if x > i64::MAX {
        i64::MAX as int
    } else {
        x
    }
}

/// Time that has passed at `now` since `since`; zero when `since` lies ahead.
pub open spec fn elapsed_between(since: int, now: int) -> int {
    if now > since {
        now - since
    } else {
        0
    }
}

/// Length of an interval of `minutes` minutes, in milliseconds.
pub open spec fn minutes_to_ms(minutes: int) -> int {
    minutes * 60000
}

/// Remaining time until a timer that was last reset at `last` is due, read at
/// the reference instant `at`.
pub open spec fn remaining(last: int, interval_ms: int, at: int) -> int {
    clamp_i64(interval_ms - elapsed_between(last, at))
}

/// The instant `t` moved forward by `by`, as far as the range allows.
pub open spec fn shifted(t: int, by: int) -> int {
    clamp_i64(t + by)
}

/// The instant that lies `by` before `t`, as far as the range allows.
pub open spec fn back_dated(t: int, by: int) -> int {
    clamp_i64(t - by)
}

/// Clamps a wide intermediate result into the range of an instant.
pub fn clamp_to_i64(x: i128) -> (r: i64)
    ensures
        r == clamp_i64(x as int),
{
    if x < i64::MIN as i128 {
        i64::MIN
    } else if x > i64::MAX as i128 {
        i64::MAX
    } else {
        x as i64
    }
}

/// Converts an interval given in whole minutes to milliseconds.
pub fn interval_ms(minutes: u32) -> (r: u64)
    ensures
        r == minutes_to_ms(minutes as int),
{
    (minutes as u64) * MS_PER_MIN
}

/// Milliseconds from `since` to `now`, zero when `since` is not in the past.
pub fn elapsed_ms(since: i64, now: i64) -> (r: u64)
    ensures
        r == elapsed_between(since as int, now as int),
{
    if now > since {
        ((now as i128) - (since as i128)) as u64
    } else {
        0
    }
}

/// Remaining milliseconds of a timer last reset at `last`, read at `at`.
pub fn remaining_ms(last: i64, interval_ms: u64, at: i64) -> (r: i64)
    ensures
        r == remaining(last as int, interval_ms as int, at as int),
{
    let gone: u64 = elapsed_ms(last, at);
    clamp_to_i64((interval_ms as i128) - (gone as i128))
}

/// Moves the instant `t` forward by `by` milliseconds.
pub fn shift_forward(t: i64, by: u64) -> (r: i64)
    ensures
        r == shifted(t as int, by as int),
{
    clamp_to_i64((t as i128) + (by as i128))
}

/// The instant `by` milliseconds before `t`.
pub fn back_date(t: i64, by: u64) -> (r: i64)
    ensures
        r == back_dated(t as int, by as int),
{
    clamp_to_i64((t as i128) - (by as i128))
}

/// A frozen span is transparent: after a timer's reset instant has been moved
/// forward by the time that passed between `frozen_at` and `now`, the timer
/// shows at `now` exactly what it showed at `frozen_at`.
pub proof fn lemma_shift_is_transparent(last: int, interval_ms: int, frozen_at: int, now: int)
    requires
        i64::MIN <= last <= i64::MAX,
        i64::MIN <= frozen_at <= now <= i64::MAX,
    ensures
        remaining(shifted(last, elapsed_between(frozen_at, now)), interval_ms, now) == remaining(
            last,
            interval_ms,
            frozen_at,
        ),
{
}

} // verus!
