//! Laws of the scheduler core, proved from the definitions that its contracts
//! use.

use vstd::prelude::*;
use crate::clock::is_time_of_day;
use crate::clock::lemma_time_order;
use crate::clock::minute_of_day;
use crate::config::AppConfig;
use crate::popup_manager::PopupType;
use crate::scheduler::announced;
use crate::scheduler::due_soon;
use crate::scheduler::in_window;
use crate::scheduler::verdict;
use crate::scheduler::Countdowns;
use crate::scheduler::IdleEdge;
use crate::scheduler::Phase;
use crate::scheduler::SchedulerInner;
use crate::scheduler::Verdict;
use crate::scheduler::LONG_ABSENCE_SEC;
use crate::scheduler::PROTECTION_ZONE_MS;
use crate::scheduler::REBASE_GRACE_MS;
use crate::timebase::elapsed_between;
use crate::timebase::lemma_shift_is_transparent;
use crate::timebase::minutes_to_ms;

verus! {

/// The interval of the timer behind a reminder, in milliseconds. The stretch
/// exercise has no timer of its own.
pub open spec fn interval_of(cfg: AppConfig, kind: PopupType) -> int {
    match kind {
        PopupType::SmallBreak => minutes_to_ms(cfg.small_break_interval_min as int),
        PopupType::BigBreak => minutes_to_ms(cfg.big_break_interval_min as int),
        PopupType::WaterReminder => minutes_to_ms(cfg.water_interval_min as int),
        PopupType::EyeExercise => minutes_to_ms(cfg.eye_exercise_interval_min as int),
        PopupType::BreathingExercise => minutes_to_ms(cfg.breathing_exercise_interval_min as int),
        PopupType::StretchExercise => 0,
    }
}

/// The reading of the timer behind a reminder.
pub open spec fn countdown_of(c: Countdowns, kind: PopupType) -> int {
    match kind {
        PopupType::SmallBreak => c.small_break as int,
        PopupType::BigBreak => c.big_break as int,
        PopupType::WaterReminder => c.water as int,
        PopupType::EyeExercise => c.eye as int,
        PopupType::BreathingExercise => c.breathing as int,
        PopupType::StretchExercise => 0,
    }
}

/// Moving all timers forward by a frozen span leaves every reading at the end
/// of the span as it was at its start.
proof fn lemma_shift_all_is_transparent(s: SchedulerInner, cfg: AppConfig, frozen_at: i64, now: i64)
    requires
        frozen_at <= now,
    ensures
        s.shift_all(elapsed_between(frozen_at as int, now as int)).countdowns_at(cfg, now)
            == s.countdowns_at(cfg, frozen_at),
{
    let f = frozen_at as int;
    let n = now as int;
    lemma_shift_is_transparent(
        s.last_small_break as int,
        minutes_to_ms(cfg.small_break_interval_min as int),
        f,
        n,
    );
    lemma_shift_is_transparent(
        s.last_big_break as int,
        minutes_to_ms(cfg.big_break_interval_min as int),
        f,
        n,
    );
    lemma_shift_is_transparent(s.last_water as int, minutes_to_ms(cfg.water_interval_min as int), f, n);
    lemma_shift_is_transparent(
        s.last_eye as int,
        minutes_to_ms(cfg.eye_exercise_interval_min as int),
        f,
        n,
    );
    lemma_shift_is_transparent(
        s.last_breathing as int,
        minutes_to_ms(cfg.breathing_exercise_interval_min as int),
        f,
        n,
    );
}

/// Pausing is transparent. For a scheduler that is not frozen when the pause
/// begins: while the pause lasts, every timer reads what it read when the
/// pause began, whatever the clock says; and right after the resume every
/// timer reads that same value again, however long the pause lasted.
pub proof fn lemma_pause_resume_continuity(
    s: SchedulerInner,
    cfg: AppConfig,
    paused_at: i64,
    minutes: u32,
    resumed_at: i64,
)
    requires
        s.frozen_at() is None,
        paused_at <= resumed_at,
    ensures
        forall|t: i64|
            #[trigger] s.after_pause(paused_at, minutes).countdowns(cfg, t) == s.countdowns(
                cfg,
                paused_at,
            ),
        s.after_pause(paused_at, minutes).after_resume(resumed_at).countdowns(cfg, resumed_at)
            == s.countdowns(cfg, paused_at),
        s.after_pause(paused_at, minutes).after_resume(resumed_at).frozen_at() is None,
{
    let paused = s.after_pause(paused_at, minutes);
    lemma_shift_all_is_transparent(paused, cfg, paused_at, resumed_at);
    assert(paused.countdowns_at(cfg, paused_at) == s.countdowns_at(cfg, paused_at));
}

/// Idle time is transparent. For a scheduler that is not frozen, with idle
/// detection on: the tick on which the idle time reaches the threshold freezes
/// every timer at its reading of that instant, and the tick on which the idle
/// time has fallen below the threshold again releases them at that very
/// reading, however long the user was away.
pub proof fn lemma_idle_transparency(
    s: SchedulerInner,
    cfg: AppConfig,
    idle_at: i64,
    idle_secs: u64,
    back_at: i64,
    back_secs: u64,
)
    requires
        s.frozen_at() is None,
        cfg.idle_detection_enabled,
        SchedulerInner::idle_reached(cfg, idle_secs),
        !SchedulerInner::idle_reached(cfg, back_secs),
        idle_at <= back_at,
    ensures
        s.idle_edge(cfg, idle_secs) == IdleEdge::Detected,
        s.after_idle_step(cfg, idle_at, idle_secs).idle_since == Some(idle_at),
        forall|t: i64|
            #[trigger] s.after_idle_step(cfg, idle_at, idle_secs).countdowns(cfg, t)
                == s.countdowns(cfg, idle_at),
        s.after_idle_step(cfg, idle_at, idle_secs).idle_edge(cfg, back_secs) == IdleEdge::Resumed,
        s.after_idle_step(cfg, idle_at, idle_secs).after_idle_step(
            cfg,
            back_at,
            back_secs,
        ).countdowns(cfg, back_at) == s.countdowns(cfg, idle_at),
        s.after_idle_step(cfg, idle_at, idle_secs).after_idle_step(
            cfg,
            back_at,
            back_secs,
        ).frozen_at() is None,
{
    let idle = s.after_idle_step(cfg, idle_at, idle_secs);
    lemma_shift_all_is_transparent(idle, cfg, idle_at, back_at);
    assert(idle.countdowns_at(cfg, idle_at) == s.countdowns_at(cfg, idle_at));
}

/// A tick that is governed by a pause, a surface on screen, idleness,
/// do-not-disturb or the work hours announces nothing, and a stopped or
/// popup-frozen scheduler does not change at all.
pub proof fn lemma_only_active_ticks_announce(
    s: SchedulerInner,
    cfg: AppConfig,
    now: i64,
    idle_secs: u64,
    dnd: bool,
    in_work_hours: bool,
)
    requires
        s.phase(cfg, now, idle_secs, dnd, in_work_hours) != Phase::Active,
    ensures
        announced(s.tick_verdict(cfg, now, idle_secs, dnd, in_work_hours)) is None,
        !s.running || (!s.paused && s.popup_paused) ==> s.after_tick(
            cfg,
            now,
            idle_secs,
            dnd,
            in_work_hours,
        ) == s,
{
}

/// No double fire. After the tick at `now` on which a reminder was announced,
/// its timer reads the full interval at `now`; and no tick at a later instant
/// announces it again before that interval has passed, whatever the signals
/// of that tick are.
pub proof fn lemma_no_double_fire(
    s: SchedulerInner,
    cfg: AppConfig,
    now: i64,
    idle_secs: u64,
    dnd: bool,
    in_work_hours: bool,
    kind: PopupType,
    next: i64,
    next_idle_secs: u64,
    next_dnd: bool,
    next_in_work_hours: bool,
)
    requires
        announced(s.tick_verdict(cfg, now, idle_secs, dnd, in_work_hours)) == Some(kind),
        now <= next < now + interval_of(cfg, kind),
    ensures
        countdown_of(
            s.after_tick(cfg, now, idle_secs, dnd, in_work_hours).countdowns_at(cfg, now),
            kind,
        ) == interval_of(cfg, kind),
        announced(
            s.after_tick(cfg, now, idle_secs, dnd, in_work_hours).tick_verdict(
                cfg,
                next,
                next_idle_secs,
                next_dnd,
                next_in_work_hours,
            ),
        ) != Some(kind),
{
    let after = s.after_tick(cfg, now, idle_secs, dnd, in_work_hours);
    assert(s.phase(cfg, now, idle_secs, dnd, in_work_hours) == Phase::Active);
    let stepped = after.after_idle_step(cfg, next, next_idle_secs);
    assert(stepped.countdowns_at(cfg, next) == after.countdowns_at(cfg, next));
}

/// Every timer that a verdict restarts reads its full interval right after
/// the verdict has been carried out, whether the verdict announced a reminder
/// or restarted the timer silently.
pub proof fn lemma_restart_gives_full_interval(s: SchedulerInner, cfg: AppConfig, v: Verdict, now: i64)
    ensures
        ({
            let c = s.carried_out(v, now).countdowns_at(cfg, now);
            &&& v is BigBreak ==> c.big_break == interval_of(cfg, PopupType::BigBreak)
                && c.small_break == interval_of(cfg, PopupType::SmallBreak)
            &&& v == (Verdict::BigBreak { with_eyes: true }) ==> c.eye == interval_of(
                cfg,
                PopupType::EyeExercise,
            )
            &&& v == Verdict::SmallBreak || v == Verdict::SmallBreakSkipped ==> c.small_break
                == interval_of(cfg, PopupType::SmallBreak)
            &&& v == Verdict::EyeExercise ==> c.eye == interval_of(cfg, PopupType::EyeExercise)
            &&& v == Verdict::BreathingExercise ==> c.breathing == interval_of(
                cfg,
                PopupType::BreathingExercise,
            )
            &&& v == Verdict::WaterReminder ==> c.water == interval_of(
                cfg,
                PopupType::WaterReminder,
            )
            &&& v == Verdict::Deferred || v == Verdict::Quiet ==> s.carried_out(v, now) == s
        }),
{
}

/// A big break subsumes the small-break cycle: the tick that announces it
/// restarts the small-break timer too, and the eye timer if the eye exercise
/// was due within the protection zone.
pub proof fn lemma_big_break_subsumes(s: SchedulerInner, c: Countdowns, breathing_enabled: bool, now: i64)
    requires
        c.big_break <= 0,
    ensures
        verdict(c, breathing_enabled) == (Verdict::BigBreak {
            with_eyes: c.eye <= PROTECTION_ZONE_MS,
        }),
        s.carried_out(verdict(c, breathing_enabled), now).last_big_break == now,
        s.carried_out(verdict(c, breathing_enabled), now).last_small_break == now,
        c.eye <= PROTECTION_ZONE_MS ==> s.carried_out(
            verdict(c, breathing_enabled),
            now,
        ).last_eye == now && s.carried_out(
            verdict(c, breathing_enabled),
            now,
        ).include_eyes_in_big_break,
        c.eye > PROTECTION_ZONE_MS ==> s.carried_out(verdict(c, breathing_enabled), now).last_eye
            == s.last_eye,
{
}

/// Protection zone. While the big break is due soon, no tick announces
/// anything; a small break that is due then is skipped, which restarts its
/// timer and changes nothing else. While the small break is due soon and the
/// big break is not due, no lesser reminder is announced.
pub proof fn lemma_protection_zone(s: SchedulerInner, c: Countdowns, breathing_enabled: bool, now: i64)
    ensures
        due_soon(c.big_break) ==> announced(verdict(c, breathing_enabled)) is None,
        due_soon(c.big_break) && c.small_break <= 0 ==> verdict(c, breathing_enabled)
            == Verdict::SmallBreakSkipped,
        s.carried_out(Verdict::SmallBreakSkipped, now) == (SchedulerInner {
            last_small_break: now,
            ..s
        }),
        due_soon(c.small_break) && c.big_break > 0 ==> announced(verdict(c, breathing_enabled))
            is None,
{
}

/// After a launch with a usable record of the last break, a break timer has
/// the time since that break counted against it; one that would be overdue
/// is due after the smaller of its interval and the protection zone instead.
pub proof fn lemma_launch_countdowns(elapsed_sec: i64, cfg: AppConfig, now: i64)
    requires
        0 <= elapsed_sec <= LONG_ABSENCE_SEC,
        now - LONG_ABSENCE_SEC * 1000 >= i64::MIN,
    ensures
        ({
            let c = SchedulerInner::launched(Some(elapsed_sec), cfg, now).countdowns(cfg, now);
            let gone = elapsed_sec * 1000;
            let small = interval_of(cfg, PopupType::SmallBreak);
            let big = interval_of(cfg, PopupType::BigBreak);
            &&& c.small_break == if gone <= small {
                small - gone
            } else if small > PROTECTION_ZONE_MS {
                PROTECTION_ZONE_MS as int
            } else {
                small
            }
            &&& c.big_break == if gone <= big {
                big - gone
            } else if big > PROTECTION_ZONE_MS {
                PROTECTION_ZONE_MS as int
            } else {
                big
            }
            &&& c.water == interval_of(cfg, PopupType::WaterReminder)
            &&& c.eye == interval_of(cfg, PopupType::EyeExercise)
            &&& c.breathing == interval_of(cfg, PopupType::BreathingExercise)
        }),
{
}

/// Without a usable record of the last break every timer starts with its full
/// interval.
pub proof fn lemma_fresh_countdowns(elapsed_sec: Option<i64>, cfg: AppConfig, now: i64)
    requires
        elapsed_sec is None || elapsed_sec->0 < 0 || elapsed_sec->0 > LONG_ABSENCE_SEC,
    ensures
        SchedulerInner::launched(elapsed_sec, cfg, now) == SchedulerInner::fresh(now),
        forall|kind: PopupType|
            countdown_of(SchedulerInner::fresh(now).countdowns(cfg, now), kind) == interval_of(
                cfg,
                kind,
            ),
{
}

/// A snoozed break is due after the snooze, or after its whole interval if
/// that is shorter. Snoozing the big break sets the small-break timer by the
/// same rule.
pub proof fn lemma_snooze_countdowns(s: SchedulerInner, cfg: AppConfig, snooze_sec: u64, now: i64)
    requires
        now - interval_of(cfg, PopupType::SmallBreak) >= i64::MIN,
        now - interval_of(cfg, PopupType::BigBreak) >= i64::MIN,
    ensures
        ({
            let small = interval_of(cfg, PopupType::SmallBreak);
            let big = interval_of(cfg, PopupType::BigBreak);
            let snooze = snooze_sec * 1000;
            let after_small = s.after_snooze("small"@, cfg, snooze_sec, now);
            let after_big = s.after_snooze("big"@, cfg, snooze_sec, now);
            &&& after_small.countdowns_at(cfg, now).small_break == if snooze < small {
                snooze
            } else {
                small
            }
            &&& after_small.last_big_break == s.last_big_break
            &&& after_big.countdowns_at(cfg, now).big_break == if snooze < big {
                snooze
            } else {
                big
            }
            &&& after_big.countdowns_at(cfg, now).small_break == if snooze < small {
                snooze
            } else {
                small
            }
            &&& !after_small.popup_paused && !after_big.popup_paused
        }),
{
    reveal_strlit("small");
    reveal_strlit("big");
    assert("small"@.len() != "big"@.len());
}

/// The reading of a timer after its interval changed, from its reading under
/// the new interval before the change.
pub open spec fn eased(reading: i64, interval: int) -> int {
    if reading > 0 {
        reading as int
    } else if interval > REBASE_GRACE_MS {
        REBASE_GRACE_MS as int
    } else {
        interval
    }
}

/// After an interval changed, a timer that the new interval has not yet
/// overtaken keeps its elapsed time; one that it has overtaken is due after
/// the grace period, or after the whole interval if that is shorter.
pub proof fn lemma_rebase_countdowns(s: SchedulerInner, old_cfg: AppConfig, new_cfg: AppConfig, now: i64)
    requires
        crate::scheduler::intervals_differ(old_cfg, new_cfg),
        forall|kind: PopupType| now - interval_of(new_cfg, kind) >= i64::MIN,
    ensures
        ({
            let before = s.countdowns_at(new_cfg, now);
            let after = s.after_config_change(old_cfg, new_cfg, now).countdowns_at(new_cfg, now);
            &&& after.small_break == eased(
                before.small_break,
                interval_of(new_cfg, PopupType::SmallBreak),
            )
            &&& after.big_break == eased(before.big_break, interval_of(new_cfg, PopupType::BigBreak))
            &&& after.water == eased(before.water, interval_of(new_cfg, PopupType::WaterReminder))
            &&& after.eye == eased(before.eye, interval_of(new_cfg, PopupType::EyeExercise))
            &&& after.breathing == before.breathing
        }),
{
    assert(now - interval_of(new_cfg, PopupType::SmallBreak) >= i64::MIN);
    assert(now - interval_of(new_cfg, PopupType::BigBreak) >= i64::MIN);
    assert(now - interval_of(new_cfg, PopupType::WaterReminder) >= i64::MIN);
    assert(now - interval_of(new_cfg, PopupType::EyeExercise) >= i64::MIN);
}

/// Whether none of the five timers was last reset after the instant `t`.
pub open spec fn behind(s: SchedulerInner, t: i64) -> bool {
    &&& s.last_small_break <= t
    &&& s.last_big_break <= t
    &&& s.last_water <= t
    &&& s.last_eye <= t
    &&& s.last_breathing <= t
}

/// Whether a freeze that is in force began at or before `now` with no timer
/// reset after its beginning.
pub open spec fn frozen_behind(s: SchedulerInner, now: i64) -> bool {
    &&& s.pause_start matches Some(p) ==> p <= now && behind(s, p)
    &&& s.idle_since matches Some(i) ==> i <= now && behind(s, i)
}

/// No timer is set ahead of the clock by an operation that restarts or
/// re-dates timers: if every timer was last reset at or before `now`, it
/// still is after a launch, a pause, a closed surface, a snooze, a reset by
/// hand, a changed configuration or a verdict carried out at `now`.
pub proof fn lemma_never_set_ahead(
    s: SchedulerInner,
    cfg: AppConfig,
    old_cfg: AppConfig,
    now: i64,
    elapsed_sec: Option<i64>,
    minutes: u32,
    closed: Option<PopupType>,
    break_type: Seq<char>,
    snooze_sec: u64,
    v: Verdict,
)
    requires
        behind(s, now),
    ensures
        behind(SchedulerInner::launched(elapsed_sec, cfg, now), now),
        behind(s.after_pause(now, minutes), now),
        behind(s.after_popup(closed, now), now),
        behind(s.after_snooze(break_type, cfg, snooze_sec, now), now),
        behind(s.after_reset(now), now),
        behind(s.reset_all(now), now),
        behind(s.after_config_change(old_cfg, cfg, now), now),
        behind(s.carried_out(v, now), now),
{
}

/// Releasing a freeze sets no timer ahead of the clock, provided no timer was
/// reset after the freeze began: then after a resume at `now`, and after a
/// whole tick at `now`, every timer was last reset at or before `now`.
pub proof fn lemma_release_stays_behind(
    s: SchedulerInner,
    cfg: AppConfig,
    now: i64,
    idle_secs: u64,
    dnd: bool,
    in_work_hours: bool,
)
    requires
        behind(s, now),
        frozen_behind(s, now),
    ensures
        behind(s.after_resume(now), now),
        behind(s.after_idle_step(cfg, now, idle_secs), now),
        behind(s.after_tick(cfg, now, idle_secs, dnd, in_work_hours), now),
{
    let stepped = s.after_idle_step(cfg, now, idle_secs);
    assert(behind(stepped, now));
    let v = s.tick_verdict(cfg, now, idle_secs, dnd, in_work_hours);
    assert(behind(stepped.carried_out(v, now), now));
    assert(behind(stepped.reset_all(now), now));
}

/// Work-hours window. For times of day written `HH:MM`, the window holds
/// the times from its start up to, but not including, its end; a window whose
/// start lies after its end holds the times from its start to midnight and
/// from midnight up to its end; a window whose start is its end holds nothing.
pub proof fn lemma_window_by_minutes(t: Seq<char>, start: Seq<char>, end: Seq<char>)
    requires
        is_time_of_day(t),
        is_time_of_day(start),
        is_time_of_day(end),
    ensures
        in_window(t, start, end) == (if minute_of_day(start) <= minute_of_day(end) {
            minute_of_day(start) <= minute_of_day(t) < minute_of_day(end)
        } else {
            minute_of_day(t) >= minute_of_day(start) || minute_of_day(t) < minute_of_day(end)
        }),
{
    lemma_time_order(start, end);
    lemma_time_order(start, t);
    lemma_time_order(end, t);
}

} // verus!
