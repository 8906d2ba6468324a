use healthdesk::config::{enforce_preset, work_method_preset, work_methods, AppConfig, WorkMethodPreset};

fn preset(a: u32, b: u32, c: u32, d: u32, e: u32) -> WorkMethodPreset {
    WorkMethodPreset {
        small_break_interval_min: a,
        small_break_duration_sec: b,
        big_break_interval_min: c,
        big_break_duration_min: d,
        eye_exercise_interval_min: e,
    }
}

#[test]
fn default_config_values() {
    let c = AppConfig::default();
    assert_eq!(c.work_method, "pomodoro");
    assert_eq!(c.small_break_interval_min, 25);
    assert_eq!(c.small_break_duration_sec, 300);
    assert_eq!(c.big_break_interval_min, 100);
    assert_eq!(c.big_break_duration_min, 15);
    assert_eq!(c.break_mode, "moderate");
    assert_eq!(c.water_interval_min, 30);
    assert_eq!(c.water_daily_goal, 8);
    assert_eq!(c.eye_exercise_interval_min, 25);
    assert!(!c.breathing_exercise_enabled);
    assert_eq!(c.breathing_exercise_interval_min, 60);
    assert_eq!(c.work_hours_start, "08:00");
    assert_eq!(c.work_hours_end, "18:00");
    assert!(!c.work_hours_enabled);
    assert!(!c.idle_detection_enabled);
    assert_eq!(c.idle_threshold_min, 5);
    assert!(!c.autostart);
    assert!(c.sound_notifications);
    assert!(c.show_ads);
    assert!(c.telemetry_enabled);
    assert!(!c.track_window_titles);
    assert!(c.audio_autoplay);
    assert_eq!(c.audio_last_source, None);
    assert_eq!(c.audio_last_type, None);
    assert_eq!(c.audio_last_volume, 10);
    assert_eq!(c.language, "pl");
    assert!(c.auto_update);
    assert_eq!(c.dashboard_layout, "enhanced");
}

#[test]
fn the_four_work_methods() {
    let m = work_methods();
    assert_eq!(
        m,
        vec![
            ("pomodoro".to_string(), preset(25, 300, 100, 15, 25)),
            ("20-20-20".to_string(), preset(20, 20, 60, 5, 30)),
            ("52-17".to_string(), preset(52, 1020, 52, 17, 52)),
            ("90-min".to_string(), preset(90, 300, 270, 20, 30)),
        ]
    );
}

#[test]
fn preset_lookup_by_name() {
    assert_eq!(work_method_preset("pomodoro"), Some(preset(25, 300, 100, 15, 25)));
    assert_eq!(work_method_preset("20-20-20"), Some(preset(20, 20, 60, 5, 30)));
    assert_eq!(work_method_preset("52-17"), Some(preset(52, 1020, 52, 17, 52)));
    assert_eq!(work_method_preset("90-min"), Some(preset(90, 300, 270, 20, 30)));
    assert_eq!(work_method_preset("custom"), None);
    assert_eq!(work_method_preset("Pomodoro"), None);
    assert_eq!(work_method_preset(""), None);
}

#[test]
fn enforce_preset_overrides_the_five_fields() {
    let mut c = AppConfig::default();
    c.work_method = "52-17".to_string();
    c.water_interval_min = 45;
    enforce_preset(&mut c);
    assert_eq!(c.small_break_interval_min, 52);
    assert_eq!(c.small_break_duration_sec, 1020);
    assert_eq!(c.big_break_interval_min, 52);
    assert_eq!(c.big_break_duration_min, 17);
    assert_eq!(c.eye_exercise_interval_min, 52);
    assert_eq!(c.water_interval_min, 45);
    assert_eq!(c.work_method, "52-17");
}

#[test]
fn custom_and_unknown_methods_keep_their_values() {
    for method in ["custom", "no-such-method"] {
        let mut c = AppConfig::default();
        c.work_method = method.to_string();
        c.small_break_interval_min = 7;
        c.small_break_duration_sec = 8;
        c.big_break_interval_min = 9;
        c.big_break_duration_min = 10;
        c.eye_exercise_interval_min = 11;
        enforce_preset(&mut c);
        assert_eq!(
            (
                c.small_break_interval_min,
                c.small_break_duration_sec,
                c.big_break_interval_min,
                c.big_break_duration_min,
                c.eye_exercise_interval_min
            ),
            (7, 8, 9, 10, 11)
        );
    }
}
