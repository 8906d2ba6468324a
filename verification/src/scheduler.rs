//! The scheduler core: per-reminder timers, the ways in which they are frozen
//! and released, and the decision taken on every tick.
//!
//! Every operation is handed the current instant of a monotonic clock in
//! milliseconds, and the environmental signals it needs, as plain values. The
//! one exception is [`SchedulerInner::in_work_hours`], which looks at the
//! machine's local time of day.

use vstd::prelude::*;
use crate::config::AppConfig;
use crate::popup_manager::PopupType;
use crate::clock::is_time_of_day;
use crate::clock::local_time_of_day;
use crate::clock::seconds_since;
use crate::text::str_eq;
use crate::text::str_le;
use crate::text::text_le;
use crate::timebase::back_date;
use crate::timebase::back_dated;
use crate::timebase::elapsed_between;
use crate::timebase::elapsed_ms;
use crate::timebase::interval_ms;
use crate::timebase::minutes_to_ms;
use crate::timebase::remaining;
use crate::timebase::remaining_ms;
use crate::timebase::shift_forward;
use crate::timebase::shifted;

verus! {

/// Width of the protection zone before a break, in milliseconds.
pub const PROTECTION_ZONE_MS: i64 = 300000;

/// A recorded break older than this many seconds is a long absence.
pub const LONG_ABSENCE_SEC: i64 = 1800;

/// Grace period, in milliseconds, left on a timer that a changed interval has
/// overtaken.
pub const REBASE_GRACE_MS: u64 = 5000;

/// Minutes for which the pause toggle pauses: long enough to count as "until
/// the user resumes".
pub const TOGGLE_PAUSE_MIN: u32 = 1440;

/// Remaining time of each of the five timers, in milliseconds. A value may be
/// zero or negative: the timer is due.
#[derive(Debug, Clone, Copy, PartialEq, Eq, Structural)]
pub struct Countdowns {
    pub small_break: i64,
    pub big_break: i64,
    pub water: i64,
    pub eye: i64,
    pub breathing: i64,
}

/// Read-only snapshot of the scheduler for observers. Times are milliseconds.
#[derive(Debug, Clone, Copy, PartialEq, Eq, Structural)]
pub struct SchedulerState {
    pub paused: bool,
    pub popup_paused: bool,
    pub outside_work_hours: bool,
    pub idle: bool,
    pub dnd: bool,
    pub time_to_small_break: i64,
    pub time_to_big_break: i64,
    pub time_to_water: i64,
    pub time_to_eye: i64,
    pub time_to_breathing: i64,
    pub include_eyes_in_big_break: bool,
}

/// The scheduler's own state. Instants are milliseconds on the caller's
/// monotonic clock.
#[derive(Debug, Clone, Copy, PartialEq, Eq)]
pub struct SchedulerInner {
    pub paused: bool,
    pub pause_until: Option<i64>,
    pub pause_start: Option<i64>,
    pub popup_paused: bool,
    pub idle_since: Option<i64>,
    pub last_small_break: i64,
    pub last_big_break: i64,
    pub last_water: i64,
    pub last_eye: i64,
    pub last_breathing: i64,
    pub include_eyes_in_big_break: bool,
    pub running: bool,
}

/// Where a timer restarts after a launch, `elapsed_sec` seconds after the last
/// recorded break: the elapsed time stays counted, but a timer that would be
/// overdue is left with the smaller of its interval and the protection zone.
pub open spec fn restored_last(elapsed_sec: int, interval_min: int, now: int) -> int {
    let interval = minutes_to_ms(interval_min);
    let gone = elapsed_sec * 1000;
    if gone <= interval {
        back_dated(now, gone)
    } else if interval > PROTECTION_ZONE_MS {
        back_dated(now, interval - PROTECTION_ZONE_MS)
    } else {
        now
    }
}

/// Where a snoozed timer restarts: `snooze_sec` seconds before it is due, or
/// at `now` if the snooze is at least as long as the interval.
pub open spec fn snoozed_last(interval_min: int, snooze_sec: int, now: int) -> int {
    let interval = minutes_to_ms(interval_min);
    if snooze_sec * 1000 < interval {
        back_dated(now, interval - snooze_sec * 1000)
    } else {
        now
    }
}

/// Where a timer restarts when its interval has changed: unchanged while the
/// new interval has not passed, else so that the grace period is left (or the
/// whole interval, if that is shorter).
pub open spec fn rebased_last(last: int, interval_min: int, now: int) -> int {
    let interval = minutes_to_ms(interval_min);
    if elapsed_between(last, now) >= interval {
        if interval > REBASE_GRACE_MS {
            back_dated(now, interval - REBASE_GRACE_MS)
        } else {
            now
        }
    } else {
        last
    }
}

/// Whether one of the intervals that drive a timer differs between two
/// configurations.
pub open spec fn intervals_differ(a: AppConfig, b: AppConfig) -> bool {
    ||| a.small_break_interval_min != b.small_break_interval_min
    ||| a.big_break_interval_min != b.big_break_interval_min
    ||| a.water_interval_min != b.water_interval_min
    ||| a.eye_exercise_interval_min != b.eye_exercise_interval_min
}

/// Whether the time of day `t` lies in the window from `start` up to, but not
/// including, `end`. A window whose start sorts after its end runs over
/// midnight. Times are compared as texts.
pub open spec fn in_window(t: Seq<char>, start: Seq<char>, end: Seq<char>) -> bool {
    if text_le(start, end) {
        text_le(start, t) && !text_le(end, t)
    } else {
        text_le(start, t) || !text_le(end, t)
    }
}

/// Whether timers accrue at the local time of day `t`: always, unless the
/// work-hours restriction is on and `t` lies outside the configured window.
pub open spec fn accrues_at(cfg: AppConfig, t: Seq<char>) -> bool {
    !cfg.work_hours_enabled || in_window(t, cfg.work_hours_start@, cfg.work_hours_end@)
}

/// Whether timers accrue at the local time of day `time_of_day`.
pub fn work_hours_include(config: &AppConfig, time_of_day: &str) -> (r: bool)
    ensures
        r == accrues_at(*config, time_of_day@),
{
    if !config.work_hours_enabled {
        return true;
    }
    let start = config.work_hours_start.as_str();
    let end = config.work_hours_end.as_str();
    let from_start: bool = str_le(start, time_of_day);
    let before_end: bool = !str_le(end, time_of_day);
    if str_le(start, end) {
        from_start && before_end
    } else {
        from_start || before_end
    }
}

impl SchedulerInner {
    /// A running scheduler whose five timers all start at `now`.
    pub open spec fn fresh(now: i64) -> Self {
        SchedulerInner {
            paused: false,
            pause_until: None,
            pause_start: None,
            popup_paused: false,
            idle_since: None,
            last_small_break: now,
            last_big_break: now,
            last_water: now,
            last_eye: now,
            last_breathing: now,
            include_eyes_in_big_break: false,
            running: true,
        }
    }

    /// The scheduler at launch. A missing, negative or long-past record of
    /// the last break gives fresh timers; otherwise the two break timers keep
    /// the elapsed time.
    pub open spec fn launched(elapsed_sec: Option<i64>, cfg: AppConfig, now: i64) -> Self {
        match elapsed_sec {
            Some(e) if 0 <= e <= LONG_ABSENCE_SEC => SchedulerInner {
                last_small_break: restored_last(
                    e as int,
                    cfg.small_break_interval_min as int,
                    now as int,
                ) as i64,
                last_big_break: restored_last(
                    e as int,
                    cfg.big_break_interval_min as int,
                    now as int,
                ) as i64,
                ..Self::fresh(now)
            },
            _ => Self::fresh(now),
        }
    }

    /// The instant at which the displayed timers stand still, if they do: the
    /// start of a manual pause, else the start of an idle span.
    pub open spec fn frozen_at(self) -> Option<i64> {
        if self.pause_start is Some {
            self.pause_start
        } else {
            self.idle_since
        }
    }

    /// The five timers read against the instant `at`.
    pub open spec fn countdowns_at(self, cfg: AppConfig, at: i64) -> Countdowns {
        Countdowns {
            small_break: remaining(
                self.last_small_break as int,
                minutes_to_ms(cfg.small_break_interval_min as int),
                at as int,
            ) as i64,
            big_break: remaining(
                self.last_big_break as int,
                minutes_to_ms(cfg.big_break_interval_min as int),
                at as int,
            ) as i64,
            water: remaining(
                self.last_water as int,
                minutes_to_ms(cfg.water_interval_min as int),
                at as int,
            ) as i64,
            eye: remaining(
                self.last_eye as int,
                minutes_to_ms(cfg.eye_exercise_interval_min as int),
                at as int,
            ) as i64,
            breathing: remaining(
                self.last_breathing as int,
                minutes_to_ms(cfg.breathing_exercise_interval_min as int),
                at as int,
            ) as i64,
        }
    }

    /// The five timers as observers see them at `now`: read against the
    /// frozen instant while paused or idle, against `now` otherwise.
    pub open spec fn countdowns(self, cfg: AppConfig, now: i64) -> Countdowns {
        match self.frozen_at() {
            Some(frozen) => self.countdowns_at(cfg, frozen),
            None => self.countdowns_at(cfg, now),
        }
    }

    /// All five timers moved forward by `by` milliseconds.
    pub open spec fn shift_all(self, by: int) -> Self {
        SchedulerInner {
            last_small_break: shifted(self.last_small_break as int, by) as i64,
            last_big_break: shifted(self.last_big_break as int, by) as i64,
            last_water: shifted(self.last_water as int, by) as i64,
            last_eye: shifted(self.last_eye as int, by) as i64,
            last_breathing: shifted(self.last_breathing as int, by) as i64,
            ..self
        }
    }

    /// All five timers restarted at `now`.
    pub open spec fn reset_all(self, now: i64) -> Self {
        SchedulerInner {
            last_small_break: now,
            last_big_break: now,
            last_water: now,
            last_eye: now,
            last_breathing: now,
            ..self
        }
    }

    /// The scheduler after a manual pause of `minutes` minutes began at `now`.
    pub open spec fn after_pause(self, now: i64, minutes: u32) -> Self {
        SchedulerInner {
            paused: true,
            pause_start: Some(now),
            pause_until: Some(shifted(now as int, minutes_to_ms(minutes as int)) as i64),
            ..self
        }
    }

    /// The scheduler after a manual pause ended at `now`: the timers move
    /// forward by the time since the pause began, and the pause is cleared.
    pub open spec fn after_resume(self, now: i64) -> Self {
        let moved = match self.pause_start {
            Some(start) => self.shift_all(elapsed_between(start as int, now as int)),
            None => self,
        };
        SchedulerInner { paused: false, pause_until: None, pause_start: None, ..moved }
    }

    /// The scheduler after the last surface closed at `now`: the popup freeze
    /// ends and the timers that belong to the closed kind restart.
    pub open spec fn after_popup(self, closed: Option<PopupType>, now: i64) -> Self {
        let s = SchedulerInner { popup_paused: false, ..self };
        match closed {
            Some(PopupType::SmallBreak) => SchedulerInner { last_small_break: now, ..s },
            Some(PopupType::BigBreak) => SchedulerInner {
                last_small_break: now,
                last_big_break: now,
                ..s
            },
            Some(PopupType::WaterReminder) => SchedulerInner { last_water: now, ..s },
            Some(PopupType::EyeExercise) => SchedulerInner { last_eye: now, ..s },
            Some(PopupType::StretchExercise) => s,
            Some(PopupType::BreathingExercise) => SchedulerInner { last_breathing: now, ..s },
            None => s.reset_all(now),
        }
    }

    /// The scheduler after a break was snoozed for `snooze_sec` seconds.
    pub open spec fn after_snooze(
        self,
        break_type: Seq<char>,
        cfg: AppConfig,
        snooze_sec: u64,
        now: i64,
    ) -> Self {
        let s = SchedulerInner { popup_paused: false, ..self };
        let small = snoozed_last(
            cfg.small_break_interval_min as int,
            snooze_sec as int,
            now as int,
        ) as i64;
        let big = snoozed_last(
            cfg.big_break_interval_min as int,
            snooze_sec as int,
            now as int,
        ) as i64;
        if break_type == "small"@ {
            SchedulerInner { last_small_break: small, ..s }
        } else if break_type == "big"@ {
            SchedulerInner { last_small_break: small, last_big_break: big, ..s }
        } else {
            s
        }
    }

    /// What observers are shown at `now`.
    pub open spec fn state_at(self, cfg: AppConfig, now: i64, in_work_hours: bool) -> SchedulerState {
        let c = self.countdowns(cfg, now);
        SchedulerState {
            paused: self.paused,
            popup_paused: self.popup_paused,
            outside_work_hours: !in_work_hours,
            idle: self.idle_since is Some,
            dnd: false,
            time_to_small_break: c.small_break,
            time_to_big_break: c.big_break,
            time_to_water: c.water,
            time_to_eye: c.eye,
            time_to_breathing: c.breathing,
            include_eyes_in_big_break: self.include_eyes_in_big_break,
        }
    }

    /// Builds the scheduler at launch, `last_break_elapsed_sec` seconds after
    /// the last recorded break, if one was recorded.
    pub fn new(last_break_elapsed_sec: Option<i64>, config: &AppConfig, now: i64) -> (r: Self)
        ensures
            r == Self::launched(last_break_elapsed_sec, *config, now),
    {
        let mut last_small: i64 = now;
        let mut last_big: i64 = now;
        if let Some(elapsed) = last_break_elapsed_sec {
            if 0 <= elapsed && elapsed <= LONG_ABSENCE_SEC {
                let gone: u64 = (elapsed as u64) * 1000;
                last_small = Self::restore(gone, config.small_break_interval_min, now);
                last_big = Self::restore(gone, config.big_break_interval_min, now);
            }
        }
        SchedulerInner {
            paused: false,
            pause_until: None,
            pause_start: None,
            popup_paused: false,
            idle_since: None,
            last_small_break: last_small,
            last_big_break: last_big,
            last_water: now,
            last_eye: now,
            last_breathing: now,
            include_eyes_in_big_break: false,
            running: true,
        }
    }

    /// Builds the scheduler at launch from the timestamp of the last break
    /// that was recorded, if one was. The time since that break is taken from
    /// the machine's clock and handed to [`SchedulerInner::new`]; without a
    /// record, or with one that is no timestamp, every timer starts fresh.
    pub fn from_last_break(last_break: Option<&str>, config: &AppConfig, now: i64) -> (r: Self)
        ensures
            exists|elapsed_sec: Option<i64>| r == Self::launched(elapsed_sec, *config, now),
            last_break is None ==> r == Self::fresh(now),
            r.last_water == now && r.last_eye == now && r.last_breathing == now,
            r.running && !r.paused && !r.popup_paused && r.frozen_at() is None,
    {
        let elapsed: Option<i64> = match last_break {
            Some(timestamp) => seconds_since(timestamp),
            None => None,
        };
        Self::new(elapsed, config, now)
    }

    fn restore(gone_ms: u64, interval_min: u32, now: i64) -> (r: i64)
        requires
            gone_ms % 1000 == 0,
            gone_ms <= 1800000,
        ensures
            r == restored_last(gone_ms as int / 1000, interval_min as int, now as int),
    {
        let interval: u64 = interval_ms(interval_min);
        if gone_ms <= interval {
            back_date(now, gone_ms)
        } else if interval > PROTECTION_ZONE_MS as u64 {
            back_date(now, interval - PROTECTION_ZONE_MS as u64)
        } else {
            now
        }
    }

    /// Begins a manual pause of `minutes` minutes at `now`.
    pub fn pause(&mut self, now: i64, minutes: u32)
        ensures
            *final(self) == old(self).after_pause(now, minutes),
    {
        self.paused = true;
        self.pause_start = Some(now);
        self.pause_until = Some(shift_forward(now, interval_ms(minutes)));
    }

    /// Ends a manual pause at `now`.
    pub fn resume(&mut self, now: i64)
        ensures
            *final(self) == old(self).after_resume(now),
    {
        if let Some(start) = self.pause_start {
            let paused_for: u64 = elapsed_ms(start, now);
            self.shift_timers(paused_for);
        }
        self.paused = false;
        self.pause_until = None;
        self.pause_start = None;
    }

    fn shift_timers(&mut self, by: u64)
        ensures
            *final(self) == old(self).shift_all(by as int),
    {
        self.last_small_break = shift_forward(self.last_small_break, by);
        self.last_big_break = shift_forward(self.last_big_break, by);
        self.last_water = shift_forward(self.last_water, by);
        self.last_eye = shift_forward(self.last_eye, by);
        self.last_breathing = shift_forward(self.last_breathing, by);
    }

    fn reset_timers_to(&mut self, now: i64)
        ensures
            *final(self) == old(self).reset_all(now),
    {
        self.last_small_break = now;
        self.last_big_break = now;
        self.last_water = now;
        self.last_eye = now;
        self.last_breathing = now;
    }

    /// Freezes trigger evaluation while a surface is on screen.
    pub fn pause_for_popup(&mut self)
        ensures
            *final(self) == (SchedulerInner { popup_paused: true, ..*old(self) }),
    {
        self.popup_paused = true;
    }

    /// Ends the popup freeze at `now` and restarts the timers of the kind
    /// that closed; with no kind given, all of them.
    pub fn resume_after_popup(&mut self, popup_type: Option<PopupType>, now: i64)
        ensures
            *final(self) == old(self).after_popup(popup_type, now),
    {
        self.popup_paused = false;
        match popup_type {
            Some(PopupType::SmallBreak) => {
                self.last_small_break = now;
            },
            Some(PopupType::BigBreak) => {
                self.last_small_break = now;
                self.last_big_break = now;
            },
            Some(PopupType::WaterReminder) => {
                self.last_water = now;
            },
            Some(PopupType::EyeExercise) => {
                self.last_eye = now;
            },
            Some(PopupType::StretchExercise) => {},
            Some(PopupType::BreathingExercise) => {
                self.last_breathing = now;
            },
            None => {
                self.reset_timers_to(now);
            },
        }
    }

    fn snooze(interval_min: u32, snooze_sec: u64, now: i64) -> (r: i64)
        ensures
            r == snoozed_last(interval_min as int, snooze_sec as int, now as int),
    {
        let interval: u64 = interval_ms(interval_min);
        if snooze_sec < interval / 1000 {
            back_date(now, interval - snooze_sec * 1000)
        } else {
            now
        }
    }

    /// Snoozes the break named by `break_type` (`small` or `big`) for
    /// `snooze_sec` seconds from `now`. Any other name only ends the popup
    /// freeze.
    pub fn snooze_break(&mut self, break_type: &str, config: &AppConfig, snooze_sec: u64, now: i64)
        ensures
            *final(self) == old(self).after_snooze(break_type@, *config, snooze_sec, now),
    {
        self.popup_paused = false;
        if str_eq(break_type, "small") {
            self.last_small_break = Self::snooze(config.small_break_interval_min, snooze_sec, now);
        } else if str_eq(break_type, "big") {
            self.last_big_break = Self::snooze(config.big_break_interval_min, snooze_sec, now);
            self.last_small_break = Self::snooze(config.small_break_interval_min, snooze_sec, now);
        }
    }

    /// Whether timers accrue right now, by the machine's local clock. Without
    /// the work-hours restriction they always do; with it, the answer is that
    /// of [`work_hours_include`] for the time of day that the clock gave.
    pub fn in_work_hours(&self, config: &AppConfig) -> (r: bool)
        ensures
            !config.work_hours_enabled ==> r,
            exists|t: Seq<char>| is_time_of_day(t) && r == accrues_at(*config, t),
    {
        let now = local_time_of_day();
        work_hours_include(config, now.as_str())
    }

    /// The scheduler after its timers were reset by hand at `now`: the two
    /// break timers, the water timer and the eye timer restart, and the
    /// frozen instant of a manual pause is forgotten.
    pub open spec fn after_reset(self, now: i64) -> Self {
        SchedulerInner {
            last_small_break: now,
            last_big_break: now,
            last_water: now,
            last_eye: now,
            pause_start: None,
            ..self
        }
    }

    /// Restarts the break, water and eye timers at `now`.
    pub fn reset_timers(&mut self, now: i64)
        ensures
            *final(self) == old(self).after_reset(now),
    {
        self.last_small_break = now;
        self.last_big_break = now;
        self.last_water = now;
        self.last_eye = now;
        self.pause_start = None;
    }

    /// Pauses until the user resumes, or resumes, at `now`.
    pub fn toggle_pause(&mut self, paused: bool, now: i64)
        ensures
            *final(self) == (if paused {
                old(self).after_pause(now, TOGGLE_PAUSE_MIN)
            } else {
                old(self).after_resume(now)
            }),
    {
        if paused {
            self.pause(now, TOGGLE_PAUSE_MIN);
        } else {
            self.resume(now);
        }
    }

    /// Flips the manual pause at `now`, as the tray menu does: a paused
    /// scheduler resumes, a running one pauses for `minutes` minutes. Returns
    /// whether the scheduler is paused afterwards.
    pub fn flip_pause(&mut self, now: i64, minutes: u32) -> (paused: bool)
        ensures
            *final(self) == (if old(self).paused {
                old(self).after_resume(now)
            } else {
                old(self).after_pause(now, minutes)
            }),
            paused == !old(self).paused,
    {
        if self.paused {
            self.resume(now);
        } else {
            self.pause(now, minutes);
        }
        self.paused
    }

    /// The scheduler after the configuration changed from `old_cfg` to
    /// `new_cfg` at `now`. If no interval changed, nothing moves; else each of
    /// the break, water and eye timers is re-based on its new interval.
    pub open spec fn after_config_change(self, old_cfg: AppConfig, new_cfg: AppConfig, now: i64) -> Self {
        if intervals_differ(old_cfg, new_cfg) {
            SchedulerInner {
                last_small_break: rebased_last(
                    self.last_small_break as int,
                    new_cfg.small_break_interval_min as int,
                    now as int,
                ) as i64,
                last_big_break: rebased_last(
                    self.last_big_break as int,
                    new_cfg.big_break_interval_min as int,
                    now as int,
                ) as i64,
                last_water: rebased_last(
                    self.last_water as int,
                    new_cfg.water_interval_min as int,
                    now as int,
                ) as i64,
                last_eye: rebased_last(
                    self.last_eye as int,
                    new_cfg.eye_exercise_interval_min as int,
                    now as int,
                ) as i64,
                ..self
            }
        } else {
            self
        }
    }

    fn rebase(last: i64, interval_min: u32, now: i64) -> (r: i64)
        ensures
            r == rebased_last(last as int, interval_min as int, now as int),
    {
        let interval: u64 = interval_ms(interval_min);
        if elapsed_ms(last, now) >= interval {
            if interval > REBASE_GRACE_MS {
                back_date(now, interval - REBASE_GRACE_MS)
            } else {
                now
            }
        } else {
            last
        }
    }

    /// Re-bases the timers once after the configuration changed from
    /// `old_config` to `new_config` at `now`.
    pub fn rebaseline(&mut self, old_config: &AppConfig, new_config: &AppConfig, now: i64)
        ensures
            *final(self) == old(self).after_config_change(*old_config, *new_config, now),
    {
        let changed: bool = old_config.small_break_interval_min
            != new_config.small_break_interval_min || old_config.big_break_interval_min
            != new_config.big_break_interval_min || old_config.water_interval_min
            != new_config.water_interval_min || old_config.eye_exercise_interval_min
            != new_config.eye_exercise_interval_min;
        if changed {
            self.last_small_break = Self::rebase(
                self.last_small_break,
                new_config.small_break_interval_min,
                now,
            );
            self.last_big_break = Self::rebase(
                self.last_big_break,
                new_config.big_break_interval_min,
                now,
            );
            self.last_water = Self::rebase(self.last_water, new_config.water_interval_min, now);
            self.last_eye = Self::rebase(self.last_eye, new_config.eye_exercise_interval_min, now);
        }
    }

    /// Remaining milliseconds of a timer last reset at `last`, read at `now`.
    pub fn time_to_next(last: i64, interval_ms: u64, now: i64) -> (r: i64)
        ensures
            r == remaining(last as int, interval_ms as int, now as int),
    {
        remaining_ms(last, interval_ms, now)
    }

    /// Remaining milliseconds of a timer last reset at `last`, as it stood at
    /// the instant `frozen_at`.
    pub fn time_to_next_frozen(last: i64, interval_ms: u64, frozen_at: i64) -> (r: i64)
        ensures
            r == remaining(last as int, interval_ms as int, frozen_at as int),
    {
        remaining_ms(last, interval_ms, frozen_at)
    }

    /// Reads the five timers against the instant `at`.
    pub fn read_countdowns(&self, config: &AppConfig, at: i64) -> (r: Countdowns)
        ensures
            r == self.countdowns_at(*config, at),
    {
        Countdowns {
            small_break: Self::time_to_next(
                self.last_small_break,
                interval_ms(config.small_break_interval_min),
                at,
            ),
            big_break: Self::time_to_next(
                self.last_big_break,
                interval_ms(config.big_break_interval_min),
                at,
            ),
            water: Self::time_to_next(self.last_water, interval_ms(config.water_interval_min), at),
            eye: Self::time_to_next(
                self.last_eye,
                interval_ms(config.eye_exercise_interval_min),
                at,
            ),
            breathing: Self::time_to_next(
                self.last_breathing,
                interval_ms(config.breathing_exercise_interval_min),
                at,
            ),
        }
    }

    /// The snapshot that observers are shown at `now`. While the scheduler
    /// is paused or idle the timers read the same at every `now`.
    pub fn get_state(&self, config: &AppConfig, now: i64, in_work_hours: bool) -> (r: SchedulerState)
        ensures
            r == self.state_at(*config, now, in_work_hours),
    {
        let at: i64 = match self.pause_start {
            Some(frozen) => frozen,
            None => match self.idle_since {
                Some(frozen) => frozen,
                None => now,
            },
        };
        let c = self.read_countdowns(config, at);
        SchedulerState {
            paused: self.paused,
            popup_paused: self.popup_paused,
            outside_work_hours: !in_work_hours,
            idle: self.idle_since.is_some(),
            dnd: false,
            time_to_small_break: c.small_break,
            time_to_big_break: c.big_break,
            time_to_water: c.water,
            time_to_eye: c.eye,
            time_to_breathing: c.breathing,
            include_eyes_in_big_break: self.include_eyes_in_big_break,
        }
    }
}

/// What a tick decides once the timers have been read.
#[derive(Debug, Clone, Copy, PartialEq, Eq, Structural)]
pub enum Verdict {
    /// The big break is due. With `with_eyes` the eye exercise, due within
    /// the protection zone, is folded into it.
    BigBreak { with_eyes: bool },
    /// The small break is due and fires.
    SmallBreak,
    /// The small break is due, but the big break is within its protection
    /// zone: the small-break timer restarts and nothing fires.
    SmallBreakSkipped,
    /// The eye exercise is due and fires.
    EyeExercise,
    /// The breathing exercise is due and fires.
    BreathingExercise,
    /// The water reminder is due and fires.
    WaterReminder,
    /// A reminder is due but a break is near: it waits, and nothing changes.
    Deferred,
    /// Nothing is due.
    Quiet,
}

/// Whether a remaining time lies in the protection zone without being due.
pub open spec fn due_soon(t: i64) -> bool {
    0 < t <= PROTECTION_ZONE_MS
}

/// The decision table of a tick, in priority order: big break, small break,
/// eye exercise, breathing exercise (if enabled), water reminder. The first
/// timer that is due decides; a later one is not looked at on this tick.
pub open spec fn verdict(c: Countdowns, breathing_enabled: bool) -> Verdict {
    if c.big_break <= 0 {
        Verdict::BigBreak { with_eyes: c.eye <= PROTECTION_ZONE_MS }
    } else if c.small_break <= 0 {
        if c.big_break <= PROTECTION_ZONE_MS {
            Verdict::SmallBreakSkipped
        } else {
            Verdict::SmallBreak
        }
    } else if c.eye <= 0 {
        if due_soon(c.small_break) || c.big_break <= PROTECTION_ZONE_MS {
            Verdict::Deferred
        } else {
            Verdict::EyeExercise
        }
    } else if breathing_enabled && c.breathing <= 0 {
        if due_soon(c.small_break) || c.big_break <= PROTECTION_ZONE_MS {
            Verdict::Deferred
        } else {
            Verdict::BreathingExercise
        }
    } else if c.water <= 0 {
        if due_soon(c.small_break) || due_soon(c.big_break) {
            Verdict::Deferred
        } else {
            Verdict::WaterReminder
        }
    } else {
        Verdict::Quiet
    }
}

/// The reminder that a verdict announces, if it announces one.
pub open spec fn announced(v: Verdict) -> Option<PopupType> {
    match v {
        Verdict::BigBreak { .. } => Some(PopupType::BigBreak),
        Verdict::SmallBreak => Some(PopupType::SmallBreak),
        Verdict::EyeExercise => Some(PopupType::EyeExercise),
        Verdict::BreathingExercise => Some(PopupType::BreathingExercise),
        Verdict::WaterReminder => Some(PopupType::WaterReminder),
        Verdict::SmallBreakSkipped | Verdict::Deferred | Verdict::Quiet => None,
    }
}

/// The name of the event under which a reminder is announced to listeners.
/// The stretch exercise is never announced by the scheduler and has none.
pub open spec fn event_name_of(kind: PopupType) -> Option<Seq<char>> {
    match kind {
        PopupType::BigBreak => Some("scheduler:big-break"@),
        PopupType::SmallBreak => Some("scheduler:small-break"@),
        PopupType::EyeExercise => Some("scheduler:eye-exercise"@),
        PopupType::BreathingExercise => Some("scheduler:breathing-exercise"@),
        PopupType::WaterReminder => Some("scheduler:water-reminder"@),
        PopupType::StretchExercise => None,
    }
}

/// The name of the event under which `kind` is announced to listeners.
pub fn event_name(kind: PopupType) -> (r: Option<&'static str>)
    ensures
        match r {
            Some(name) => event_name_of(kind) == Some(name@),
            None => event_name_of(kind) is None,
        },
{
    match kind {
        PopupType::BigBreak => Some("scheduler:big-break"),
        PopupType::SmallBreak => Some("scheduler:small-break"),
        PopupType::EyeExercise => Some("scheduler:eye-exercise"),
        PopupType::BreathingExercise => Some("scheduler:breathing-exercise"),
        PopupType::WaterReminder => Some("scheduler:water-reminder"),
        PopupType::StretchExercise => None,
    }
}

/// Takes the decision of a tick from the timers' readings.
pub fn evaluate(c: &Countdowns, breathing_enabled: bool) -> (v: Verdict)
    ensures
        v == verdict(*c, breathing_enabled),
{
    let small_soon: bool = 0 < c.small_break && c.small_break <= PROTECTION_ZONE_MS;
    let big_soon: bool = 0 < c.big_break && c.big_break <= PROTECTION_ZONE_MS;
    if c.big_break <= 0 {
        Verdict::BigBreak { with_eyes: c.eye <= PROTECTION_ZONE_MS }
    } else if c.small_break <= 0 {
        if c.big_break <= PROTECTION_ZONE_MS {
            Verdict::SmallBreakSkipped
        } else {
            Verdict::SmallBreak
        }
    } else if c.eye <= 0 {
        if small_soon || c.big_break <= PROTECTION_ZONE_MS {
            Verdict::Deferred
        } else {
            Verdict::EyeExercise
        }
    } else if breathing_enabled && c.breathing <= 0 {
        if small_soon || c.big_break <= PROTECTION_ZONE_MS {
            Verdict::Deferred
        } else {
            Verdict::BreathingExercise
        }
    } else if c.water <= 0 {
        if small_soon || big_soon {
            Verdict::Deferred
        } else {
            Verdict::WaterReminder
        }
    } else {
        Verdict::Quiet
    }
}

/// The reminder that a verdict announces.
pub fn reminder_of(v: Verdict) -> (r: Option<PopupType>)
    ensures
        r == announced(v),
{
    match v {
        Verdict::BigBreak { .. } => Some(PopupType::BigBreak),
        Verdict::SmallBreak => Some(PopupType::SmallBreak),
        Verdict::EyeExercise => Some(PopupType::EyeExercise),
        Verdict::BreathingExercise => Some(PopupType::BreathingExercise),
        Verdict::WaterReminder => Some(PopupType::WaterReminder),
        Verdict::SmallBreakSkipped => None,
        Verdict::Deferred => None,
        Verdict::Quiet => None,
    }
}

/// A change of the idle freeze that a tick made.
#[derive(Debug, Clone, Copy, PartialEq, Eq, Structural)]
pub enum IdleEdge {
    /// No change.
    Steady,
    /// The user went idle: the timers are frozen from this tick on.
    Detected,
    /// The user came back: the timers were released on this tick.
    Resumed,
}

/// What governed a tick.
#[derive(Debug, Clone, Copy, PartialEq, Eq, Structural)]
pub enum Phase {
    /// The scheduler has been told to stop; the driving loop ends.
    Stopped,
    /// A manual pause is in force, or ended on this very tick.
    Paused,
    /// A surface is on screen.
    PopupShown,
    /// The user is idle.
    Idle,
    /// Do-not-disturb is active.
    DoNotDisturb,
    /// The local time lies outside the work hours.
    OutsideWorkHours,
    /// The timers were read and a verdict was taken.
    Active,
}

/// What a tick hands to the driving loop.
#[derive(Debug, Clone, Copy, PartialEq, Eq)]
pub struct TickOutcome {
    pub phase: Phase,
    pub idle_edge: IdleEdge,
    pub verdict: Verdict,
    pub due: Option<PopupType>,
    pub state: SchedulerState,
}

impl SchedulerInner {
    /// Whether the idle time reported by the system reaches the configured
    /// threshold.
    pub open spec fn idle_reached(cfg: AppConfig, idle_secs: u64) -> bool {
        idle_secs >= cfg.idle_threshold_min * 60
    }

    /// The change of the idle freeze that a tick at `now` makes, given the
    /// system's idle time. Without idle detection there is none.
    pub open spec fn idle_edge(self, cfg: AppConfig, idle_secs: u64) -> IdleEdge {
        if !cfg.idle_detection_enabled {
            IdleEdge::Steady
        } else if Self::idle_reached(cfg, idle_secs) && self.idle_since is None {
            IdleEdge::Detected
        } else if !Self::idle_reached(cfg, idle_secs) && self.idle_since is Some {
            IdleEdge::Resumed
        } else {
            IdleEdge::Steady
        }
    }

    /// The scheduler after the idle transition of a tick at `now`: going idle
    /// records the instant; coming back moves every timer forward by the idle
    /// span and clears it.
    pub open spec fn after_idle_step(self, cfg: AppConfig, now: i64, idle_secs: u64) -> Self {
        match self.idle_edge(cfg, idle_secs) {
            IdleEdge::Steady => self,
            IdleEdge::Detected => SchedulerInner { idle_since: Some(now), ..self },
            IdleEdge::Resumed => SchedulerInner {
                idle_since: None,
                ..self.shift_all(elapsed_between(self.idle_since->0 as int, now as int))
            },
        }
    }

    /// What governs a tick.
    pub open spec fn phase(
        self,
        cfg: AppConfig,
        now: i64,
        idle_secs: u64,
        dnd: bool,
        in_work_hours: bool,
    ) -> Phase {
        if !self.running {
            Phase::Stopped
        } else if self.paused {
            Phase::Paused
        } else if self.popup_paused {
            Phase::PopupShown
        } else if cfg.idle_detection_enabled && self.after_idle_step(
            cfg,
            now,
            idle_secs,
        ).idle_since is Some {
            Phase::Idle
        } else if dnd {
            Phase::DoNotDisturb
        } else if !in_work_hours {
            Phase::OutsideWorkHours
        } else {
            Phase::Active
        }
    }

    /// The scheduler after a verdict has been carried out at `now`: every
    /// timer that fired, or was folded in or skipped, restarts at `now`.
    pub open spec fn carried_out(self, v: Verdict, now: i64) -> Self {
        match v {
            Verdict::BigBreak { with_eyes } => if with_eyes {
                SchedulerInner {
                    last_big_break: now,
                    last_small_break: now,
                    last_eye: now,
                    include_eyes_in_big_break: true,
                    ..self
                }
            } else {
                SchedulerInner { last_big_break: now, last_small_break: now, ..self }
            },
            Verdict::SmallBreak | Verdict::SmallBreakSkipped => SchedulerInner {
                last_small_break: now,
                ..self
            },
            Verdict::EyeExercise => SchedulerInner { last_eye: now, ..self },
            Verdict::BreathingExercise => SchedulerInner { last_breathing: now, ..self },
            Verdict::WaterReminder => SchedulerInner { last_water: now, ..self },
            Verdict::Deferred | Verdict::Quiet => self,
        }
    }

    /// The verdict of a tick: taken from the timers read against `now` in the
    /// active phase, `Quiet` in every other phase.
    pub open spec fn tick_verdict(
        self,
        cfg: AppConfig,
        now: i64,
        idle_secs: u64,
        dnd: bool,
        in_work_hours: bool,
    ) -> Verdict {
        if self.phase(cfg, now, idle_secs, dnd, in_work_hours) == Phase::Active {
            verdict(
                self.after_idle_step(cfg, now, idle_secs).countdowns_at(cfg, now),
                cfg.breathing_exercise_enabled,
            )
        } else {
            Verdict::Quiet
        }
    }

    /// The scheduler after a tick at `now`.
    ///
    /// A stopped scheduler and one with a surface on screen do not change. A
    /// paused one resumes if its pause has run out. Otherwise the idle
    /// transition is made; then, unless the user is idle or do-not-disturb is
    /// active, the timers are all restarted outside the work hours, and inside
    /// them the verdict is carried out.
    pub open spec fn after_tick(
        self,
        cfg: AppConfig,
        now: i64,
        idle_secs: u64,
        dnd: bool,
        in_work_hours: bool,
    ) -> Self {
        match self.phase(cfg, now, idle_secs, dnd, in_work_hours) {
            Phase::Stopped | Phase::PopupShown => self,
            Phase::Paused => match self.pause_until {
                Some(until) if now >= until => self.after_resume(now),
                _ => self,
            },
            Phase::Idle | Phase::DoNotDisturb => self.after_idle_step(cfg, now, idle_secs),
            Phase::OutsideWorkHours => self.after_idle_step(cfg, now, idle_secs).reset_all(now),
            Phase::Active => self.after_idle_step(cfg, now, idle_secs).carried_out(
                self.tick_verdict(cfg, now, idle_secs, dnd, in_work_hours),
                now,
            ),
        }
    }

    /// The idle change that a tick reports: the idle transition is only made
    /// by a tick that gets past the pause and popup checks.
    pub open spec fn tick_idle_edge(self, cfg: AppConfig, idle_secs: u64) -> IdleEdge {
        if !self.running || self.paused || self.popup_paused {
            IdleEdge::Steady
        } else {
            self.idle_edge(cfg, idle_secs)
        }
    }

    fn idle_step(&mut self, config: &AppConfig, now: i64, idle_secs: u64) -> (edge: IdleEdge)
        ensures
            edge == old(self).idle_edge(*config, idle_secs),
            *final(self) == old(self).after_idle_step(*config, now, idle_secs),
    {
        if !config.idle_detection_enabled {
            return IdleEdge::Steady;
        }
        let threshold: u64 = (config.idle_threshold_min as u64) * 60;
        let reached: bool = idle_secs >= threshold;
        match self.idle_since {
            None => {
                if reached {
                    self.idle_since = Some(now);
                    IdleEdge::Detected
                } else {
                    IdleEdge::Steady
                }
            },
            Some(since) => {
                if !reached {
                    let idle_for: u64 = elapsed_ms(since, now);
                    self.shift_timers(idle_for);
                    self.idle_since = None;
                    IdleEdge::Resumed
                } else {
                    IdleEdge::Steady
                }
            },
        }
    }

    fn carry_out(&mut self, v: Verdict, now: i64)
        ensures
            *final(self) == old(self).carried_out(v, now),
    {
        match v {
            Verdict::BigBreak { with_eyes } => {
                self.last_big_break = now;
                self.last_small_break = now;
                if with_eyes {
                    self.include_eyes_in_big_break = true;
                    self.last_eye = now;
                }
            },
            Verdict::SmallBreak => {
                self.last_small_break = now;
            },
            Verdict::SmallBreakSkipped => {
                self.last_small_break = now;
            },
            Verdict::EyeExercise => {
                self.last_eye = now;
            },
            Verdict::BreathingExercise => {
                self.last_breathing = now;
            },
            Verdict::WaterReminder => {
                self.last_water = now;
            },
            Verdict::Deferred => {},
            Verdict::Quiet => {},
        }
    }

    /// One tick of the driving loop at `now`.
    ///
    /// `idle_secs` is the system's idle time, `dnd` whether do-not-disturb is
    /// active, `in_work_hours` whether the local time lies inside the work
    /// hours. The outcome names the phase that governed the tick, the idle
    /// change, the verdict with the one reminder that is due, if any, and the
    /// snapshot to broadcast, read after the tick's changes.
    pub fn tick(
        &mut self,
        config: &AppConfig,
        now: i64,
        idle_secs: u64,
        dnd: bool,
        in_work_hours: bool,
    ) -> (out: TickOutcome)
        ensures
            *final(self) == old(self).after_tick(*config, now, idle_secs, dnd, in_work_hours),
            out.phase == old(self).phase(*config, now, idle_secs, dnd, in_work_hours),
            out.idle_edge == old(self).tick_idle_edge(*config, idle_secs),
            out.verdict == old(self).tick_verdict(*config, now, idle_secs, dnd, in_work_hours),
            out.due == announced(out.verdict),
            out.state == (SchedulerState {
                dnd: out.phase == Phase::DoNotDisturb,
                ..final(self).state_at(*config, now, in_work_hours)
            }),
    {
        if !self.running {
            let state = self.get_state(config, now, in_work_hours);
            return TickOutcome {
                phase: Phase::Stopped,
                idle_edge: IdleEdge::Steady,
                verdict: Verdict::Quiet,
                due: None,
                state,
            };
        }
        if self.paused {
            if let Some(until) = self.pause_until {
                if now >= until {
                    self.resume(now);
                }
            }
            let state = self.get_state(config, now, in_work_hours);
            return TickOutcome {
                phase: Phase::Paused,
                idle_edge: IdleEdge::Steady,
                verdict: Verdict::Quiet,
                due: None,
                state,
            };
        }
        if self.popup_paused {
            let state = self.get_state(config, now, in_work_hours);
            return TickOutcome {
                phase: Phase::PopupShown,
                idle_edge: IdleEdge::Steady,
                verdict: Verdict::Quiet,
                due: None,
                state,
            };
        }
        let idle_edge = self.idle_step(config, now, idle_secs);
        if config.idle_detection_enabled && self.idle_since.is_some() {
            let state = self.get_state(config, now, in_work_hours);
            return TickOutcome {
                phase: Phase::Idle,
                idle_edge,
                verdict: Verdict::Quiet,
                due: None,
                state,
            };
        }
        if dnd {
            let mut state = self.get_state(config, now, in_work_hours);
            state.dnd = true;
            return TickOutcome {
                phase: Phase::DoNotDisturb,
                idle_edge,
                verdict: Verdict::Quiet,
                due: None,
                state,
            };
        }
        if !in_work_hours {
            self.reset_timers_to(now);
            let state = self.get_state(config, now, in_work_hours);
            return TickOutcome {
                phase: Phase::OutsideWorkHours,
                idle_edge,
                verdict: Verdict::Quiet,
                due: None,
                state,
            };
        }
        let readings = self.read_countdowns(config, now);
        let v = evaluate(&readings, config.breathing_exercise_enabled);
        self.carry_out(v, now);
        let state = self.get_state(config, now, in_work_hours);
        TickOutcome { phase: Phase::Active, idle_edge, verdict: v, due: reminder_of(v), state }
    }
}

} // verus!
