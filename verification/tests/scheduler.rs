use healthdesk::config::AppConfig;
use healthdesk::popup_manager::PopupType;
use healthdesk::scheduler::{
    evaluate, reminder_of, work_hours_include, Countdowns, IdleEdge, Phase, SchedulerInner,
    SchedulerState, Verdict,
};

const MIN: i64 = 60_000;

fn config() -> AppConfig {
    let mut cfg = AppConfig::default();
    cfg.small_break_interval_min = 25;
    cfg.big_break_interval_min = 100;
    cfg.water_interval_min = 30;
    cfg.eye_exercise_interval_min = 25;
    cfg.breathing_exercise_interval_min = 60;
    cfg
}

fn times(s: &SchedulerState) -> (i64, i64, i64, i64, i64) {
    (
        s.time_to_small_break,
        s.time_to_big_break,
        s.time_to_water,
        s.time_to_eye,
        s.time_to_breathing,
    )
}

fn readings(small: i64, big: i64, water: i64, eye: i64, breathing: i64) -> Countdowns {
    Countdowns { small_break: small, big_break: big, water, eye, breathing }
}

#[test]
fn fresh_scheduler_starts_every_timer_now() {
    let cfg = config();
    for elapsed in [None, Some(1801), Some(-1), Some(i64::MAX), Some(i64::MIN)] {
        let s = SchedulerInner::new(elapsed, &cfg, 5_000);
        assert_eq!(
            s,
            SchedulerInner {
                paused: false,
                pause_until: None,
                pause_start: None,
                popup_paused: false,
                idle_since: None,
                last_small_break: 5_000,
                last_big_break: 5_000,
                last_water: 5_000,
                last_eye: 5_000,
                last_breathing: 5_000,
                include_eyes_in_big_break: false,
                running: true,
            }
        );
        let st = s.get_state(&cfg, 5_000, true);
        assert_eq!(times(&st), (25 * MIN, 100 * MIN, 30 * MIN, 25 * MIN, 60 * MIN));
    }
}

#[test]
fn launch_from_a_recorded_timestamp() {
    let cfg = config();
    let now = 10_000_000;
    let fresh = SchedulerInner::new(None, &cfg, now);
    assert_eq!(SchedulerInner::from_last_break(None, &cfg, now), fresh);
    assert_eq!(SchedulerInner::from_last_break(Some("yesterday"), &cfg, now), fresh);
    assert_eq!(SchedulerInner::from_last_break(Some(""), &cfg, now), fresh);
    // A break long ago is a long absence; one in the future is no record.
    assert_eq!(SchedulerInner::from_last_break(Some("2001-02-03T04:05:06+01:00"), &cfg, now), fresh);
    assert_eq!(SchedulerInner::from_last_break(Some("9999-01-01T00:00:00Z"), &cfg, now), fresh);
}

#[test]
fn launch_counts_the_time_since_the_recorded_break() {
    let cfg = config();
    let now = 10_000_000;
    let ten_minutes_ago = (chrono::Local::now() - chrono::Duration::seconds(600)).to_rfc3339();
    let s = SchedulerInner::from_last_break(Some(&ten_minutes_ago), &cfg, now);
    // A few seconds may pass between writing the timestamp and reading it.
    assert!(s.last_small_break <= now - 600_000 && s.last_small_break >= now - 605_000);
    assert_eq!(s.last_big_break, s.last_small_break);
    assert_eq!((s.last_water, s.last_eye, s.last_breathing), (now, now, now));
}

#[test]
fn launch_keeps_elapsed_time_of_the_break_timers() {
    let cfg = config();
    let now = 10_000_000;
    let s = SchedulerInner::new(Some(600), &cfg, now);
    assert_eq!(s.last_small_break, now - 600_000);
    assert_eq!(s.last_big_break, now - 600_000);
    assert_eq!(s.last_water, now);
    assert_eq!(s.last_eye, now);
    assert_eq!(s.last_breathing, now);
    let st = s.get_state(&cfg, now, true);
    assert_eq!(times(&st), (15 * MIN, 90 * MIN, 30 * MIN, 25 * MIN, 60 * MIN));
}

#[test]
fn launch_clamps_an_overdue_timer_to_the_protection_zone() {
    let cfg = config();
    let now = 10_000_000;
    // 28 minutes since the last break: the small break (25 min) is overdue.
    let s = SchedulerInner::new(Some(28 * 60), &cfg, now);
    let st = s.get_state(&cfg, now, true);
    assert_eq!(st.time_to_small_break, 5 * MIN);
    assert_eq!(st.time_to_big_break, 72 * MIN);
    // Exactly the interval: due now, not overdue.
    let s = SchedulerInner::new(Some(25 * 60), &cfg, now);
    assert_eq!(s.get_state(&cfg, now, true).time_to_small_break, 0);
    // The boundary of a long absence still counts as a record.
    let s = SchedulerInner::new(Some(1800), &cfg, now);
    assert_eq!(s.get_state(&cfg, now, true).time_to_small_break, 5 * MIN);
    assert_eq!(s.get_state(&cfg, now, true).time_to_big_break, 70 * MIN);
}

#[test]
fn launch_with_an_interval_inside_the_zone_gives_the_whole_interval() {
    let mut cfg = config();
    cfg.small_break_interval_min = 3;
    cfg.big_break_interval_min = 0;
    let now = 10_000_000;
    let s = SchedulerInner::new(Some(600), &cfg, now);
    let st = s.get_state(&cfg, now, true);
    assert_eq!(st.time_to_small_break, 3 * MIN);
    assert_eq!(st.time_to_big_break, 0);
}

#[test]
fn pause_records_start_and_end() {
    let cfg = config();
    let mut s = SchedulerInner::new(None, &cfg, 0);
    s.pause(7_000, 30);
    assert!(s.paused);
    assert_eq!(s.pause_start, Some(7_000));
    assert_eq!(s.pause_until, Some(7_000 + 30 * MIN));
    s.pause(i64::MAX - 5, u32::MAX);
    assert_eq!(s.pause_until, Some(i64::MAX));
}

#[test]
fn pause_and_resume_leave_the_remaining_time_unchanged() {
    let cfg = config();
    let mut s = SchedulerInner::new(None, &cfg, 0);
    let before = s.get_state(&cfg, 10 * MIN, true);
    assert_eq!(times(&before), (15 * MIN, 90 * MIN, 20 * MIN, 15 * MIN, 50 * MIN));
    s.pause(10 * MIN, 30);
    // Frozen: the same reading at any later instant.
    assert_eq!(times(&s.get_state(&cfg, 10 * MIN, true)), times(&before));
    assert_eq!(times(&s.get_state(&cfg, 47 * MIN, true)), times(&before));
    assert!(s.get_state(&cfg, 47 * MIN, true).paused);
    s.resume(3 * 60 * MIN + 123);
    assert!(!s.paused);
    assert_eq!(s.pause_start, None);
    assert_eq!(s.pause_until, None);
    let after = s.get_state(&cfg, 3 * 60 * MIN + 123, true);
    assert_eq!(times(&after), times(&before));
    assert!(!after.paused);
    // And the timers run again.
    let later = s.get_state(&cfg, 3 * 60 * MIN + 123 + MIN, true);
    assert_eq!(times(&later), (14 * MIN, 89 * MIN, 19 * MIN, 14 * MIN, 49 * MIN));
}

#[test]
fn resume_without_a_pause_only_clears_the_flags() {
    let cfg = config();
    let mut s = SchedulerInner::new(None, &cfg, 0);
    s.paused = true;
    s.pause_until = Some(99);
    s.resume(50 * MIN);
    assert_eq!(s, SchedulerInner::new(None, &cfg, 0));
}

#[test]
fn toggle_pause_pauses_for_a_day_or_resumes() {
    let cfg = config();
    let mut s = SchedulerInner::new(None, &cfg, 0);
    s.toggle_pause(true, 1_000);
    assert!(s.paused);
    assert_eq!(s.pause_until, Some(1_000 + 24 * 60 * MIN));
    s.toggle_pause(false, 61_000);
    assert!(!s.paused);
    assert_eq!(s.last_small_break, 60_000);
}

#[test]
fn popup_freeze_and_release_by_kind() {
    let cfg = config();
    let base = SchedulerInner::new(None, &cfg, 0);
    let mut s = base;
    s.pause_for_popup();
    assert!(s.popup_paused);
    assert_eq!(SchedulerInner { popup_paused: false, ..s }, base);

    let cases = [
        (Some(PopupType::SmallBreak), (9, 0, 0, 0, 0)),
        (Some(PopupType::BigBreak), (9, 9, 0, 0, 0)),
        (Some(PopupType::WaterReminder), (0, 0, 9, 0, 0)),
        (Some(PopupType::EyeExercise), (0, 0, 0, 9, 0)),
        (Some(PopupType::StretchExercise), (0, 0, 0, 0, 0)),
        (Some(PopupType::BreathingExercise), (0, 0, 0, 0, 9)),
        (None, (9, 9, 9, 9, 9)),
    ];
    for (kind, expected) in cases {
        let mut s = base;
        s.pause_for_popup();
        s.resume_after_popup(kind, 9);
        assert!(!s.popup_paused);
        assert_eq!(
            (s.last_small_break, s.last_big_break, s.last_water, s.last_eye, s.last_breathing),
            expected
        );
    }
}

#[test]
fn snooze_small_break() {
    let cfg = config();
    let now = 100 * MIN;
    let mut s = SchedulerInner::new(None, &cfg, 0);
    s.popup_paused = true;
    s.snooze_break("small", &cfg, 300, now);
    assert!(!s.popup_paused);
    assert_eq!(s.last_small_break, now - 20 * MIN);
    assert_eq!(s.last_big_break, 0);
    assert_eq!(s.get_state(&cfg, now, true).time_to_small_break, 5 * MIN);
}

#[test]
fn snooze_big_break_moves_the_small_break_too() {
    let cfg = config();
    let now = 100 * MIN;
    let mut s = SchedulerInner::new(None, &cfg, 0);
    s.snooze_break("big", &cfg, 600, now);
    let st = s.get_state(&cfg, now, true);
    assert_eq!(st.time_to_big_break, 10 * MIN);
    assert_eq!(st.time_to_small_break, 10 * MIN);
    assert_eq!(st.time_to_water, -70 * MIN);
}

#[test]
fn snooze_longer_than_the_interval_restarts_the_timer() {
    let cfg = config();
    let now = 100 * MIN;
    let mut s = SchedulerInner::new(None, &cfg, 0);
    s.snooze_break("small", &cfg, 25 * 60, now);
    assert_eq!(s.last_small_break, now);
    s.snooze_break("small", &cfg, u64::MAX, now + 1);
    assert_eq!(s.last_small_break, now + 1);
    s.snooze_break("big", &cfg, 26 * 60, now + 2);
    assert_eq!(s.last_small_break, now + 2);
    assert_eq!(s.last_big_break, now + 2 - 74 * MIN);
}

#[test]
fn snooze_of_an_unknown_break_only_ends_the_popup_freeze() {
    let cfg = config();
    let mut s = SchedulerInner::new(None, &cfg, 0);
    s.popup_paused = true;
    s.snooze_break("Small", &cfg, 300, 10 * MIN);
    assert_eq!(s, SchedulerInner::new(None, &cfg, 0));
}

#[test]
fn time_to_next_formula() {
    assert_eq!(SchedulerInner::time_to_next(1_000, 1_500_000, 61_000), 1_440_000);
    assert_eq!(SchedulerInner::time_to_next(1_000, 1_500_000, 1_501_000), 0);
    assert_eq!(SchedulerInner::time_to_next(1_000, 1_500_000, 1_501_001), -1);
    // A reset instant ahead of the clock counts as no time elapsed.
    assert_eq!(SchedulerInner::time_to_next(2_000, 1_500_000, 1_000), 1_500_000);
    assert_eq!(SchedulerInner::time_to_next_frozen(1_000, 1_500_000, 61_000), 1_440_000);
    // Clamped at both ends of the range.
    assert_eq!(SchedulerInner::time_to_next(i64::MIN, 0, i64::MAX), i64::MIN);
    assert_eq!(SchedulerInner::time_to_next(0, u64::MAX, 0), i64::MAX);
}

#[test]
fn state_reports_flags() {
    let cfg = config();
    let mut s = SchedulerInner::new(None, &cfg, 0);
    s.include_eyes_in_big_break = true;
    s.idle_since = Some(2 * MIN);
    let st = s.get_state(&cfg, 10 * MIN, false);
    assert_eq!(
        st,
        SchedulerState {
            paused: false,
            popup_paused: false,
            outside_work_hours: true,
            idle: true,
            dnd: false,
            time_to_small_break: 23 * MIN,
            time_to_big_break: 98 * MIN,
            time_to_water: 28 * MIN,
            time_to_eye: 23 * MIN,
            time_to_breathing: 58 * MIN,
            include_eyes_in_big_break: true,
        }
    );
    // A manual pause takes precedence over the idle instant.
    s.pause_start = Some(4 * MIN);
    assert_eq!(s.get_state(&cfg, 10 * MIN, true).time_to_small_break, 21 * MIN);
}

#[test]
fn reset_timers_restarts_four_timers_and_forgets_the_pause_start() {
    let cfg = config();
    let mut s = SchedulerInner::new(None, &cfg, 0);
    s.pause(MIN, 30);
    s.reset_timers(5 * MIN);
    assert_eq!(
        (s.last_small_break, s.last_big_break, s.last_water, s.last_eye, s.last_breathing),
        (5 * MIN, 5 * MIN, 5 * MIN, 5 * MIN, 0)
    );
    assert_eq!(s.pause_start, None);
    assert!(s.paused);
}

#[test]
fn rebaseline_only_when_an_interval_changed() {
    let old = config();
    let mut new = config();
    new.break_mode = "aggressive".to_string();
    new.breathing_exercise_interval_min = 1;
    let mut s = SchedulerInner::new(None, &old, 0);
    s.rebaseline(&old, &new, 500 * MIN);
    assert_eq!(s, SchedulerInner::new(None, &old, 0));
}

#[test]
fn rebaseline_keeps_progress_or_leaves_the_grace_period() {
    let old = config();
    let mut new = config();
    new.small_break_interval_min = 10;
    let now = 20 * MIN;
    let mut s = SchedulerInner::new(None, &old, 0);
    s.last_breathing = -500 * MIN;
    s.rebaseline(&old, &new, now);
    // Small break: 20 minutes gone, the new interval is 10: due in 5 s.
    assert_eq!(s.last_small_break, now - (10 * MIN - 5_000));
    // The others have not been overtaken.
    assert_eq!((s.last_big_break, s.last_water, s.last_eye), (0, 0, 0));
    assert_eq!(s.last_breathing, -500 * MIN);
    let st = s.get_state(&new, now, true);
    assert_eq!(st.time_to_small_break, 5_000);
    assert_eq!(st.time_to_big_break, 80 * MIN);

    // A timer that is exactly due counts as overtaken.
    let mut s = SchedulerInner::new(None, &old, 0);
    s.rebaseline(&old, &new, 10 * MIN);
    assert_eq!(s.get_state(&new, 10 * MIN, true).time_to_small_break, 5_000);

    // A zero interval leaves nothing to wait for.
    new.small_break_interval_min = 0;
    let mut s = SchedulerInner::new(None, &old, 0);
    s.rebaseline(&old, &new, now);
    assert_eq!(s.last_small_break, now);
}

#[test]
fn work_hours_window() {
    let mut cfg = config();
    cfg.work_hours_start = "08:00".to_string();
    cfg.work_hours_end = "18:00".to_string();
    assert!(work_hours_include(&cfg, "03:00"));
    cfg.work_hours_enabled = true;
    assert!(!work_hours_include(&cfg, "07:59"));
    assert!(work_hours_include(&cfg, "08:00"));
    assert!(work_hours_include(&cfg, "12:30"));
    assert!(work_hours_include(&cfg, "17:59"));
    assert!(!work_hours_include(&cfg, "18:00"));
    assert!(!work_hours_include(&cfg, "23:10"));
}

#[test]
fn work_hours_window_over_midnight() {
    let mut cfg = config();
    cfg.work_hours_enabled = true;
    cfg.work_hours_start = "22:00".to_string();
    cfg.work_hours_end = "03:00".to_string();
    assert!(work_hours_include(&cfg, "22:00"));
    assert!(work_hours_include(&cfg, "23:59"));
    assert!(work_hours_include(&cfg, "00:00"));
    assert!(work_hours_include(&cfg, "02:59"));
    assert!(!work_hours_include(&cfg, "03:00"));
    assert!(!work_hours_include(&cfg, "12:00"));
    assert!(!work_hours_include(&cfg, "21:59"));
}

#[test]
fn empty_work_hours_window_includes_nothing() {
    let mut cfg = config();
    cfg.work_hours_enabled = true;
    cfg.work_hours_start = "09:00".to_string();
    cfg.work_hours_end = "09:00".to_string();
    assert!(!work_hours_include(&cfg, "09:00"));
    assert!(!work_hours_include(&cfg, "10:00"));
}

#[test]
fn in_work_hours_without_restriction() {
    let cfg = config();
    let s = SchedulerInner::new(None, &cfg, 0);
    assert!(s.in_work_hours(&cfg));
}

#[test]
fn in_work_hours_reads_a_time_of_day() {
    // Whatever the clock says, exactly one of two complementary windows
    // includes it.
    let s = SchedulerInner::new(None, &config(), 0);
    let mut day = config();
    day.work_hours_enabled = true;
    day.work_hours_start = "06:00".to_string();
    day.work_hours_end = "18:00".to_string();
    let mut night = config();
    night.work_hours_enabled = true;
    night.work_hours_start = "18:00".to_string();
    night.work_hours_end = "06:00".to_string();
    let a = s.in_work_hours(&day);
    let b = s.in_work_hours(&night);
    let a2 = s.in_work_hours(&day);
    // Tolerate the clock passing a boundary between the calls.
    assert!(a != b || a != a2);
    let mut all_day = config();
    all_day.work_hours_enabled = true;
    all_day.work_hours_start = "00:00".to_string();
    all_day.work_hours_end = "24:00".to_string();
    assert!(s.in_work_hours(&all_day));
}

#[test]
fn verdict_table() {
    let z = 5 * MIN;
    // Big break first, folding in an eye exercise that is due within the zone.
    assert_eq!(evaluate(&readings(-1, 0, -1, z, -1), true), Verdict::BigBreak { with_eyes: true });
    assert_eq!(
        evaluate(&readings(-1, -5, -1, z + 1, -1), true),
        Verdict::BigBreak { with_eyes: false }
    );
    // Small break, unless the big break is near.
    assert_eq!(evaluate(&readings(0, z + 1, -1, -1, -1), true), Verdict::SmallBreak);
    assert_eq!(evaluate(&readings(0, z, -1, -1, -1), true), Verdict::SmallBreakSkipped);
    // Eye exercise, unless a break is near.
    assert_eq!(evaluate(&readings(z + 1, z + 1, -1, 0, -1), true), Verdict::EyeExercise);
    assert_eq!(evaluate(&readings(z, z + 1, -1, 0, -1), true), Verdict::Deferred);
    assert_eq!(evaluate(&readings(z + 1, z, -1, 0, -1), true), Verdict::Deferred);
    // Breathing exercise only if enabled.
    assert_eq!(evaluate(&readings(z + 1, z + 1, 9, 9, 0), true), Verdict::BreathingExercise);
    assert_eq!(evaluate(&readings(1, z + 1, 9, 9, 0), true), Verdict::Deferred);
    assert_eq!(evaluate(&readings(z + 1, 1, 9, 9, 0), true), Verdict::Deferred);
    assert_eq!(evaluate(&readings(z + 1, z + 1, 9, 9, 0), false), Verdict::Quiet);
    assert_eq!(evaluate(&readings(z + 1, z + 1, 0, 9, 0), false), Verdict::WaterReminder);
    // Water reminder, unless a break is near.
    assert_eq!(evaluate(&readings(z + 1, z + 1, 0, 9, 9), true), Verdict::WaterReminder);
    assert_eq!(evaluate(&readings(z, z + 1, 0, 9, 9), true), Verdict::Deferred);
    assert_eq!(evaluate(&readings(z + 1, z, 0, 9, 9), true), Verdict::Deferred);
    assert_eq!(evaluate(&readings(1, 1, 1, 1, 1), true), Verdict::Quiet);
}

#[test]
fn reminder_of_a_verdict() {
    assert_eq!(reminder_of(Verdict::BigBreak { with_eyes: true }), Some(PopupType::BigBreak));
    assert_eq!(reminder_of(Verdict::BigBreak { with_eyes: false }), Some(PopupType::BigBreak));
    assert_eq!(reminder_of(Verdict::SmallBreak), Some(PopupType::SmallBreak));
    assert_eq!(reminder_of(Verdict::EyeExercise), Some(PopupType::EyeExercise));
    assert_eq!(reminder_of(Verdict::BreathingExercise), Some(PopupType::BreathingExercise));
    assert_eq!(reminder_of(Verdict::WaterReminder), Some(PopupType::WaterReminder));
    assert_eq!(reminder_of(Verdict::SmallBreakSkipped), None);
    assert_eq!(reminder_of(Verdict::Deferred), None);
    assert_eq!(reminder_of(Verdict::Quiet), None);
}

#[test]
fn small_break_fires_at_its_interval_and_not_again() {
    let cfg = config();
    let mut s = SchedulerInner::new(None, &cfg, 0);
    let out = s.tick(&cfg, 25 * MIN - 1_000, 0, false, true);
    assert_eq!(out.phase, Phase::Active);
    assert_eq!(out.due, None);
    assert_eq!(out.state.time_to_small_break, 1_000);

    // At 25 minutes exactly the small break and the eye exercise are both
    // due; the small break goes first.
    let now = 25 * MIN;
    let out = s.tick(&cfg, now, 0, false, true);
    assert_eq!(out.verdict, Verdict::SmallBreak);
    assert_eq!(out.due, Some(PopupType::SmallBreak));
    assert_eq!(
        times(&out.state),
        (1_500_000, 75 * MIN, 5 * MIN, 0, 35 * MIN)
    );
    assert_eq!(s.last_small_break, now);
    assert_eq!((s.last_big_break, s.last_water, s.last_eye, s.last_breathing), (0, 0, 0, 0));

    // The next tick does not fire the small break again; the eye exercise
    // has its turn.
    let out = s.tick(&cfg, now + 1_000, 0, false, true);
    assert_eq!(out.due, Some(PopupType::EyeExercise));
    assert_eq!(out.state.time_to_small_break, 1_499_000);
    assert_eq!(out.state.time_to_eye, 1_500_000);
    let out = s.tick(&cfg, now + 2_000, 0, false, true);
    assert_eq!(out.due, None);
    assert_eq!(out.verdict, Verdict::Quiet);
}

#[test]
fn small_break_is_skipped_in_the_protection_zone_of_the_big_break() {
    let cfg = config();
    let now = 500 * MIN;
    let mut s = SchedulerInner::new(None, &cfg, now);
    s.last_big_break = now - (100 * MIN - 120_000);
    s.last_small_break = now - 25 * MIN;
    let before = s.get_state(&cfg, now, true);
    assert_eq!(before.time_to_big_break, 120_000);
    assert_eq!(before.time_to_small_break, 0);
    let out = s.tick(&cfg, now, 0, false, true);
    assert_eq!(out.verdict, Verdict::SmallBreakSkipped);
    assert_eq!(out.due, None);
    assert_eq!(s.last_small_break, now);
    assert_eq!(out.state.time_to_small_break, 25 * MIN);
    assert_eq!(out.state.time_to_big_break, 120_000);
}

#[test]
fn big_break_resets_the_small_break_and_folds_in_the_eyes() {
    let cfg = config();
    let now = 100 * MIN;
    let mut s = SchedulerInner::new(None, &cfg, 0);
    s.last_small_break = 90 * MIN;
    s.last_eye = 78 * MIN;
    let out = s.tick(&cfg, now, 0, false, true);
    assert_eq!(out.verdict, Verdict::BigBreak { with_eyes: true });
    assert_eq!(out.due, Some(PopupType::BigBreak));
    assert!(s.include_eyes_in_big_break);
    assert!(out.state.include_eyes_in_big_break);
    assert_eq!((s.last_big_break, s.last_small_break, s.last_eye), (now, now, now));
    assert_eq!(s.last_water, 0);

    let mut s = SchedulerInner::new(None, &cfg, 0);
    s.last_eye = 90 * MIN;
    let out = s.tick(&cfg, now, 0, false, true);
    assert_eq!(out.verdict, Verdict::BigBreak { with_eyes: false });
    assert!(!s.include_eyes_in_big_break);
    assert_eq!(s.last_eye, 90 * MIN);
}

#[test]
fn water_waits_for_a_break_that_is_near() {
    let cfg = config();
    let now = 30 * MIN;
    let mut s = SchedulerInner::new(None, &cfg, 0);
    s.last_small_break = 6 * MIN;
    s.last_eye = 20 * MIN;
    let before = s;
    let out = s.tick(&cfg, now, 0, false, true);
    assert_eq!(out.state.time_to_small_break, MIN);
    assert_eq!(out.verdict, Verdict::Deferred);
    assert_eq!(out.due, None);
    assert_eq!(s, before);
    // Once the small break has fired, the water reminder follows.
    let out = s.tick(&cfg, 31 * MIN, 0, false, true);
    assert_eq!(out.due, Some(PopupType::SmallBreak));
    let out = s.tick(&cfg, 31 * MIN + 1_000, 0, false, true);
    assert_eq!(out.due, Some(PopupType::WaterReminder));
    assert_eq!(s.last_water, 31 * MIN + 1_000);
}

#[test]
fn breathing_exercise_needs_to_be_enabled() {
    let mut cfg = config();
    cfg.breathing_exercise_interval_min = 10;
    let mut s = SchedulerInner::new(None, &cfg, 0);
    let out = s.tick(&cfg, 10 * MIN, 0, false, true);
    assert_eq!(out.due, None);
    assert_eq!(out.state.time_to_breathing, 0);
    cfg.breathing_exercise_enabled = true;
    let out = s.tick(&cfg, 10 * MIN, 0, false, true);
    assert_eq!(out.due, Some(PopupType::BreathingExercise));
    assert_eq!(s.last_breathing, 10 * MIN);
}

#[test]
fn stopped_scheduler_ends_the_loop() {
    let cfg = config();
    let mut s = SchedulerInner::new(None, &cfg, 0);
    s.running = false;
    let before = s;
    let out = s.tick(&cfg, 200 * MIN, 0, false, true);
    assert_eq!(out.phase, Phase::Stopped);
    assert_eq!(out.due, None);
    assert_eq!(s, before);
}

#[test]
fn paused_tick_resumes_when_the_pause_has_run_out() {
    let cfg = config();
    let mut s = SchedulerInner::new(None, &cfg, 0);
    s.pause(10 * MIN, 30);
    let out = s.tick(&cfg, 40 * MIN - 1, 0, false, true);
    assert_eq!(out.phase, Phase::Paused);
    assert!(s.paused);
    assert!(out.state.paused);
    assert_eq!(out.state.time_to_small_break, 15 * MIN);
    let out = s.tick(&cfg, 40 * MIN, 0, false, true);
    assert_eq!(out.phase, Phase::Paused);
    assert_eq!(out.due, None);
    assert!(!s.paused);
    assert!(!out.state.paused);
    assert_eq!(out.state.time_to_small_break, 15 * MIN);
    assert_eq!(s.last_small_break, 30 * MIN);
}

#[test]
fn popup_frozen_tick_changes_nothing() {
    let cfg = config();
    let mut s = SchedulerInner::new(None, &cfg, 0);
    s.pause_for_popup();
    let before = s;
    let out = s.tick(&cfg, 300 * MIN, 0, false, true);
    assert_eq!(out.phase, Phase::PopupShown);
    assert_eq!(out.due, None);
    assert!(out.state.popup_paused);
    assert_eq!(out.state.time_to_small_break, -275 * MIN);
    assert_eq!(s, before);
}

#[test]
fn idle_span_is_transparent() {
    let mut cfg = config();
    cfg.idle_detection_enabled = true;
    cfg.idle_threshold_min = 5;
    let mut s = SchedulerInner::new(None, &cfg, 0);
    let out = s.tick(&cfg, 10 * MIN, 299, false, true);
    assert_eq!(out.idle_edge, IdleEdge::Steady);
    assert_eq!(out.phase, Phase::Active);
    let at_freeze = (15 * MIN, 90 * MIN, 20 * MIN, 15 * MIN, 50 * MIN);
    assert_eq!(times(&out.state), at_freeze);

    let out = s.tick(&cfg, 10 * MIN, 300, false, true);
    assert_eq!(out.idle_edge, IdleEdge::Detected);
    assert_eq!(out.phase, Phase::Idle);
    assert_eq!(s.idle_since, Some(10 * MIN));
    assert!(out.state.idle);
    assert_eq!(times(&out.state), at_freeze);

    let out = s.tick(&cfg, 55 * MIN, 3_000, false, true);
    assert_eq!(out.idle_edge, IdleEdge::Steady);
    assert_eq!(out.phase, Phase::Idle);
    assert_eq!(out.due, None);
    assert_eq!(times(&out.state), at_freeze);

    let out = s.tick(&cfg, 70 * MIN, 2, false, true);
    assert_eq!(out.idle_edge, IdleEdge::Resumed);
    assert_eq!(out.phase, Phase::Active);
    assert_eq!(out.due, None);
    assert_eq!(s.idle_since, None);
    assert!(!out.state.idle);
    assert_eq!(times(&out.state), at_freeze);
    assert_eq!(s.last_small_break, 60 * MIN);
}

#[test]
fn idle_detection_can_be_switched_off() {
    let cfg = config();
    let mut s = SchedulerInner::new(None, &cfg, 0);
    let out = s.tick(&cfg, 10 * MIN, 100_000, false, true);
    assert_eq!(out.idle_edge, IdleEdge::Steady);
    assert_eq!(out.phase, Phase::Active);
    assert_eq!(s.idle_since, None);
}

#[test]
fn do_not_disturb_holds_reminders_back() {
    let cfg = config();
    let mut s = SchedulerInner::new(None, &cfg, 0);
    let before = s;
    let out = s.tick(&cfg, 30 * MIN, 0, true, true);
    assert_eq!(out.phase, Phase::DoNotDisturb);
    assert_eq!(out.due, None);
    assert!(out.state.dnd);
    assert_eq!(out.state.time_to_small_break, -5 * MIN);
    assert_eq!(s, before);
    let out = s.tick(&cfg, 30 * MIN + 1_000, 0, false, true);
    assert!(!out.state.dnd);
    assert_eq!(out.due, Some(PopupType::SmallBreak));
}

#[test]
fn outside_work_hours_every_timer_restarts() {
    let cfg = config();
    let mut s = SchedulerInner::new(None, &cfg, 0);
    let out = s.tick(&cfg, 200 * MIN, 0, false, false);
    assert_eq!(out.phase, Phase::OutsideWorkHours);
    assert_eq!(out.due, None);
    assert!(out.state.outside_work_hours);
    assert_eq!(times(&out.state), (25 * MIN, 100 * MIN, 30 * MIN, 25 * MIN, 60 * MIN));
    assert_eq!(
        (s.last_small_break, s.last_big_break, s.last_water, s.last_eye, s.last_breathing),
        (200 * MIN, 200 * MIN, 200 * MIN, 200 * MIN, 200 * MIN)
    );
}

#[test]
fn a_day_of_ticks_announces_at_most_one_reminder_per_tick() {
    let cfg = config();
    let mut s = SchedulerInner::new(None, &cfg, 0);
    let mut announced = Vec::new();
    let mut now = 0;
    while now <= 100 * MIN {
        let out = s.tick(&cfg, now, 0, false, true);
        if let Some(kind) = out.due {
            announced.push((now / 1_000, kind));
        }
        now += 1_000;
    }
    assert_eq!(
        announced,
        vec![
            (1500, PopupType::SmallBreak),
            (1501, PopupType::EyeExercise),
            (1800, PopupType::WaterReminder),
            (3000, PopupType::SmallBreak),
            (3001, PopupType::EyeExercise),
            (3600, PopupType::WaterReminder),
            (4500, PopupType::SmallBreak),
            (4501, PopupType::EyeExercise),
            (5400, PopupType::WaterReminder),
            (6000, PopupType::BigBreak),
        ]
    );
    // The big break took the small break, due at the same instant, and the
    // eye exercise, due a second later, with it.
    assert!(s.include_eyes_in_big_break);
    assert_eq!((s.last_small_break, s.last_big_break, s.last_eye), (100 * MIN, 100 * MIN, 100 * MIN));
    assert_eq!(s.last_water, 90 * MIN);
}
