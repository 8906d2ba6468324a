use healthdesk::config::AppConfig;
use healthdesk::popup_manager::{
    announce, create_popup_manager, enqueue_popup, popup_closed, Admission, Dispatch,
    PopupManagerInner, PopupType, ShowCommand,
};
use healthdesk::scheduler::SchedulerInner;

fn show(kind: PopupType, aggressive: bool, duration_sec: u32) -> Option<ShowCommand> {
    Some(ShowCommand { kind, aggressive, duration_sec })
}

#[test]
fn new_arbiter_is_empty() {
    let m = PopupManagerInner::new();
    assert_eq!(m.current_popup(), None);
    assert!(m.pending().is_empty());
    let c = create_popup_manager();
    assert_eq!(c.current_popup(), None);
    assert!(c.pending().is_empty());
}

#[test]
fn first_kind_takes_the_free_screen() {
    let mut m = PopupManagerInner::new();
    assert_eq!(m.enqueue(PopupType::WaterReminder), Admission::Shown { replaced: None });
    assert_eq!(m.current_popup(), Some(PopupType::WaterReminder));
    assert!(m.pending().is_empty());
}

#[test]
fn duplicate_of_current_is_ignored() {
    let mut m = PopupManagerInner::new();
    m.enqueue(PopupType::WaterReminder);
    assert_eq!(m.enqueue(PopupType::WaterReminder), Admission::Duplicate);
    assert_eq!(m.current_popup(), Some(PopupType::WaterReminder));
    assert!(m.pending().is_empty());
}

#[test]
fn duplicate_of_pending_is_ignored() {
    let mut m = PopupManagerInner::new();
    m.enqueue(PopupType::BigBreak);
    assert_eq!(m.enqueue(PopupType::WaterReminder), Admission::Queued);
    assert_eq!(m.enqueue(PopupType::WaterReminder), Admission::Duplicate);
    assert_eq!(m.current_popup(), Some(PopupType::BigBreak));
    assert_eq!(m.pending(), vec![PopupType::WaterReminder]);
}

#[test]
fn higher_priority_preempts_and_drops_the_current() {
    let mut m = PopupManagerInner::new();
    m.enqueue(PopupType::WaterReminder);
    assert_eq!(
        m.enqueue(PopupType::BigBreak),
        Admission::Shown { replaced: Some(PopupType::WaterReminder) }
    );
    assert_eq!(m.current_popup(), Some(PopupType::BigBreak));
    assert!(m.pending().is_empty());
    // The water reminder does not come back when the big break closes.
    assert_eq!(m.closed(), (None, Some(PopupType::BigBreak)));
    assert_eq!(m.current_popup(), None);
}

#[test]
fn equal_priority_does_not_preempt() {
    let mut m = PopupManagerInner::new();
    m.enqueue(PopupType::EyeExercise);
    assert_eq!(m.enqueue(PopupType::StretchExercise), Admission::Queued);
    assert_eq!(m.enqueue(PopupType::BreathingExercise), Admission::Queued);
    assert_eq!(m.current_popup(), Some(PopupType::EyeExercise));
    assert_eq!(m.pending(), vec![PopupType::StretchExercise, PopupType::BreathingExercise]);
}

#[test]
fn pending_is_served_by_rank_then_arrival() {
    let mut m = PopupManagerInner::new();
    m.enqueue(PopupType::BigBreak);
    m.enqueue(PopupType::WaterReminder);
    m.enqueue(PopupType::EyeExercise);
    m.enqueue(PopupType::SmallBreak);
    assert_eq!(
        m.pending(),
        vec![PopupType::SmallBreak, PopupType::EyeExercise, PopupType::WaterReminder]
    );
    assert_eq!(m.closed(), (Some(PopupType::SmallBreak), Some(PopupType::BigBreak)));
    assert_eq!(m.closed(), (Some(PopupType::EyeExercise), Some(PopupType::SmallBreak)));
    assert_eq!(m.closed(), (Some(PopupType::WaterReminder), Some(PopupType::EyeExercise)));
    assert_eq!(m.closed(), (None, Some(PopupType::WaterReminder)));
    assert_eq!(m.closed(), (None, None));
}

#[test]
fn enqueue_popup_freezes_the_scheduler_when_shown() {
    let mut m = create_popup_manager();
    let mut s = SchedulerInner::new(None, &AppConfig::default(), 0);
    let d = enqueue_popup(&mut m, &mut s, PopupType::SmallBreak, "aggressive", 300);
    assert_eq!(d, Dispatch { close: None, show: show(PopupType::SmallBreak, true, 300) });
    assert!(s.popup_paused);
    let d = enqueue_popup(&mut m, &mut s, PopupType::SmallBreak, "aggressive", 300);
    assert_eq!(d, Dispatch { close: None, show: None });
    let d = enqueue_popup(&mut m, &mut s, PopupType::WaterReminder, "moderate", 30);
    assert_eq!(d, Dispatch { close: None, show: None });
    let d = enqueue_popup(&mut m, &mut s, PopupType::BigBreak, "moderate", 900);
    assert_eq!(
        d,
        Dispatch { close: Some(PopupType::SmallBreak), show: show(PopupType::BigBreak, false, 900) }
    );
    assert_eq!(m.pending(), vec![PopupType::WaterReminder]);
}

#[test]
fn queued_kind_leaves_the_scheduler_alone() {
    let mut m = create_popup_manager();
    let cfg = AppConfig::default();
    let mut s = SchedulerInner::new(None, &cfg, 0);
    m.enqueue(PopupType::BigBreak);
    let before = s;
    let d = enqueue_popup(&mut m, &mut s, PopupType::EyeExercise, "moderate", 30);
    assert_eq!(d, Dispatch { close: None, show: None });
    assert_eq!(s, before);
}

#[test]
fn announce_uses_the_presentation_of_the_kind() {
    let mut cfg = AppConfig::default();
    cfg.break_mode = "aggressive".to_string();
    let mut s = SchedulerInner::new(None, &cfg, 0);

    let mut m = create_popup_manager();
    let d = announce(&mut m, &mut s, PopupType::BigBreak, &cfg);
    assert_eq!(d.show, show(PopupType::BigBreak, true, 900));

    let mut m = create_popup_manager();
    let d = announce(&mut m, &mut s, PopupType::SmallBreak, &cfg);
    assert_eq!(d.show, show(PopupType::SmallBreak, true, 300));

    let mut m = create_popup_manager();
    let d = announce(&mut m, &mut s, PopupType::BreathingExercise, &cfg);
    assert_eq!(d.show, show(PopupType::BreathingExercise, false, 80));

    let mut m = create_popup_manager();
    let d = announce(&mut m, &mut s, PopupType::EyeExercise, &cfg);
    assert_eq!(d.show, show(PopupType::EyeExercise, false, 30));

    let mut m = create_popup_manager();
    let d = announce(&mut m, &mut s, PopupType::WaterReminder, &cfg);
    assert_eq!(d.show, show(PopupType::WaterReminder, false, 30));
}

#[test]
fn popup_closed_shows_the_next_or_releases_the_scheduler() {
    let cfg = AppConfig::default();
    let mut m = create_popup_manager();
    let mut s = SchedulerInner::new(None, &cfg, 0);
    enqueue_popup(&mut m, &mut s, PopupType::BigBreak, "moderate", 900);
    enqueue_popup(&mut m, &mut s, PopupType::BreathingExercise, "moderate", 80);
    enqueue_popup(&mut m, &mut s, PopupType::SmallBreak, "moderate", 300);

    let next = popup_closed(&mut m, &mut s, "aggressive", &cfg, 10_000);
    assert_eq!(next, show(PopupType::SmallBreak, true, 300));
    assert!(s.popup_paused);
    assert_eq!(s.last_big_break, 0);

    // Off the queue a breathing exercise gets the short time, not its own.
    let next = popup_closed(&mut m, &mut s, "moderate", &cfg, 20_000);
    assert_eq!(next, show(PopupType::BreathingExercise, false, 30));
    assert!(s.popup_paused);

    let next = popup_closed(&mut m, &mut s, "moderate", &cfg, 30_000);
    assert_eq!(next, None);
    assert!(!s.popup_paused);
    assert_eq!(s.last_breathing, 30_000);
    assert_eq!(s.last_small_break, 0);
    assert_eq!(s.last_big_break, 0);
}

#[test]
fn closing_with_nothing_shown_resets_every_timer() {
    let cfg = AppConfig::default();
    let mut m = create_popup_manager();
    let mut s = SchedulerInner::new(None, &cfg, 0);
    s.popup_paused = true;
    assert_eq!(popup_closed(&mut m, &mut s, "moderate", &cfg, 7_000), None);
    assert!(!s.popup_paused);
    assert_eq!(
        (s.last_small_break, s.last_big_break, s.last_water, s.last_eye, s.last_breathing),
        (7_000, 7_000, 7_000, 7_000, 7_000)
    );
}
