//! The configuration snapshot that the scheduler and the popup arbiter read.

use vstd::prelude::*;
use crate::text::str_eq;

verus! {

/// User settings. The scheduling core only ever reads a snapshot of them.
///
/// Intervals are whole minutes; durations are seconds or minutes as their names
/// say. The two work-hour bounds are local times of day written `HH:MM`.
#[derive(Debug, Clone)]
pub struct AppConfig {
    pub work_method: String,
    pub small_break_interval_min: u32,
    pub small_break_duration_sec: u32,
    pub big_break_interval_min: u32,
    pub big_break_duration_min: u32,
    pub break_mode: String,
    pub water_interval_min: u32,
    pub water_daily_goal: u32,
    pub eye_exercise_interval_min: u32,
    pub breathing_exercise_enabled: bool,
    pub breathing_exercise_interval_min: u32,
    pub work_hours_start: String,
    pub work_hours_end: String,
    pub work_hours_enabled: bool,
    pub idle_detection_enabled: bool,
    pub idle_threshold_min: u32,
    pub autostart: bool,
    pub sound_notifications: bool,
    pub show_ads: bool,
    pub telemetry_enabled: bool,
    pub track_window_titles: bool,
    pub audio_autoplay: bool,
    pub audio_last_source: Option<String>,
    pub audio_last_type: Option<String>,
    pub audio_last_volume: u32,
    pub language: String,
    pub auto_update: bool,
    pub dashboard_layout: String,
}

/// The interval and duration values that a named work method prescribes.
#[derive(Debug, Clone, Copy, PartialEq, Eq, Structural)]
pub struct WorkMethodPreset {
    pub small_break_interval_min: u32,
    pub small_break_duration_sec: u32,
    pub big_break_interval_min: u32,
    pub big_break_duration_min: u32,
    pub eye_exercise_interval_min: u32,
}

/// Values of the `pomodoro` method.
pub open spec fn pomodoro_preset() -> WorkMethodPreset {
    WorkMethodPreset {
        small_break_interval_min: 25,
        small_break_duration_sec: 300,
        big_break_interval_min: 100,
        big_break_duration_min: 15,
        eye_exercise_interval_min: 25,
    }
}

/// Values of the `20-20-20` method.
pub open spec fn twenty_preset() -> WorkMethodPreset {
    WorkMethodPreset {
        small_break_interval_min: 20,
        small_break_duration_sec: 20,
        big_break_interval_min: 60,
        big_break_duration_min: 5,
        eye_exercise_interval_min: 30,
    }
}

/// Values of the `52-17` method.
pub open spec fn fifty_two_preset() -> WorkMethodPreset {
    WorkMethodPreset {
        small_break_interval_min: 52,
        small_break_duration_sec: 1020,
        big_break_interval_min: 52,
        big_break_duration_min: 17,
        eye_exercise_interval_min: 52,
    }
}

/// Values of the `90-min` method.
pub open spec fn ninety_preset() -> WorkMethodPreset {
    WorkMethodPreset {
        small_break_interval_min: 90,
        small_break_duration_sec: 300,
        big_break_interval_min: 270,
        big_break_duration_min: 20,
        eye_exercise_interval_min: 30,
    }
}

/// The preset that belongs to a method name, if the name is a known method.
pub open spec fn preset_of(name: Seq<char>) -> Option<WorkMethodPreset> {
    if name == "pomodoro"@ {
        Some(pomodoro_preset())
    } else if name == "20-20-20"@ {
        Some(twenty_preset())
    } else if name == "52-17"@ {
        Some(fifty_two_preset())
    } else if name == "90-min"@ {
        Some(ninety_preset())
    } else {
        None
    }
}

/// The configuration as `preset` overrides it: the five preset fields are
/// replaced, everything else is kept.
pub open spec fn with_preset(cfg: AppConfig, preset: WorkMethodPreset) -> AppConfig {
    AppConfig {
        small_break_interval_min: preset.small_break_interval_min,
        small_break_duration_sec: preset.small_break_duration_sec,
        big_break_interval_min: preset.big_break_interval_min,
        big_break_duration_min: preset.big_break_duration_min,
        eye_exercise_interval_min: preset.eye_exercise_interval_min,
        ..cfg
    }
}

/// The configuration after its work method has been enforced.
pub open spec fn preset_enforced(cfg: AppConfig) -> AppConfig {
    match preset_of(cfg.work_method@) {
        Some(preset) => with_preset(cfg, preset),
        None => cfg,
    }
}

/// The settings of a first launch.
pub open spec fn is_default_config(c: AppConfig) -> bool {
    &&& c.work_method@ == "pomodoro"@
    &&& c.small_break_interval_min == 25
    &&& c.small_break_duration_sec == 300
    &&& c.big_break_interval_min == 100
    &&& c.big_break_duration_min == 15
    &&& c.break_mode@ == "moderate"@
    &&& c.water_interval_min == 30
    &&& c.water_daily_goal == 8
    &&& c.eye_exercise_interval_min == 25
    &&& !c.breathing_exercise_enabled
    &&& c.breathing_exercise_interval_min == 60
    &&& c.work_hours_start@ == "08:00"@
    &&& c.work_hours_end@ == "18:00"@
    &&& !c.work_hours_enabled
    &&& !c.idle_detection_enabled
    &&& c.idle_threshold_min == 5
    &&& !c.autostart
    &&& c.sound_notifications
    &&& c.show_ads
    &&& c.telemetry_enabled
    &&& !c.track_window_titles
    &&& c.audio_autoplay
    &&& c.audio_last_source is None
    &&& c.audio_last_type is None
    &&& c.audio_last_volume == 10
    &&& c.language@ == "pl"@
    &&& c.auto_update
    &&& c.dashboard_layout@ == "enhanced"@
}

impl Default for AppConfig {
    fn default() -> (r: Self)
        ensures
            is_default_config(r),
            preset_enforced(r) == r,
    {
        Self {
            work_method: "pomodoro".to_owned(),
            small_break_interval_min: 25,
            small_break_duration_sec: 300,
            big_break_interval_min: 100,
            big_break_duration_min: 15,
            break_mode: "moderate".to_owned(),
            water_interval_min: 30,
            water_daily_goal: 8,
            eye_exercise_interval_min: 25,
            breathing_exercise_enabled: false,
            breathing_exercise_interval_min: 60,
            work_hours_start: "08:00".to_owned(),
            work_hours_end: "18:00".to_owned(),
            work_hours_enabled: false,
            idle_detection_enabled: false,
            idle_threshold_min: 5,
            autostart: false,
            sound_notifications: true,
            show_ads: true,
            telemetry_enabled: true,
            track_window_titles: false,
            audio_autoplay: true,
            audio_last_source: None,
            audio_last_type: None,
            audio_last_volume: 10,
            language: "pl".to_owned(),
            auto_update: true,
            dashboard_layout: "enhanced".to_owned(),
        }
    }
}

/// The four named work methods with their presets, in a fixed order.
pub fn work_methods() -> (r: Vec<(String, WorkMethodPreset)>)
    ensures
        r@.len() == 4,
        r@[0].0@ == "pomodoro"@ && r@[0].1 == pomodoro_preset(),
        r@[1].0@ == "20-20-20"@ && r@[1].1 == twenty_preset(),
        r@[2].0@ == "52-17"@ && r@[2].1 == fifty_two_preset(),
        r@[3].0@ == "90-min"@ && r@[3].1 == ninety_preset(),
{
    let mut m: Vec<(String, WorkMethodPreset)> = Vec::new();
    m.push(
        (
            "pomodoro".to_owned(),
            WorkMethodPreset {
                small_break_interval_min: 25,
                small_break_duration_sec: 300,
                big_break_interval_min: 100,
                big_break_duration_min: 15,
                eye_exercise_interval_min: 25,
            },
        ),
    );
    m.push(
        (
            "20-20-20".to_owned(),
            WorkMethodPreset {
                small_break_interval_min: 20,
                small_break_duration_sec: 20,
                big_break_interval_min: 60,
                big_break_duration_min: 5,
                eye_exercise_interval_min: 30,
            },
        ),
    );
    m.push(
        (
            "52-17".to_owned(),
            WorkMethodPreset {
                small_break_interval_min: 52,
                small_break_duration_sec: 1020,
                big_break_interval_min: 52,
                big_break_duration_min: 17,
                eye_exercise_interval_min: 52,
            },
        ),
    );
    m.push(
        (
            "90-min".to_owned(),
            WorkMethodPreset {
                small_break_interval_min: 90,
                small_break_duration_sec: 300,
                big_break_interval_min: 270,
                big_break_duration_min: 20,
                eye_exercise_interval_min: 30,
            },
        ),
    );
    m
}

/// Looks a work method up by name.
pub fn work_method_preset(name: &str) -> (r: Option<WorkMethodPreset>)
    ensures
        r == preset_of(name@),
{
    let methods = work_methods();
    let mut i: usize = 0;
    while i < methods.len()
        invariant
            i <= methods@.len() == 4,
            methods@[0].0@ == "pomodoro"@ && methods@[0].1 == pomodoro_preset(),
            methods@[1].0@ == "20-20-20"@ && methods@[1].1 == twenty_preset(),
            methods@[2].0@ == "52-17"@ && methods@[2].1 == fifty_two_preset(),
            methods@[3].0@ == "90-min"@ && methods@[3].1 == ninety_preset(),
            forall|k: int| 0 <= k < i ==> (#[trigger] methods@[k]).0@ != name@,
        decreases methods@.len() - i,
    {
        if str_eq(methods[i].0.as_str(), name) {
            proof {
                lemma_method_names_differ();
            }
            return Some(methods[i].1);
        }
        i += 1;
    }
    None
}

/// The four method names are pairwise different, and none of them is `custom`.
pub proof fn lemma_method_names_differ()
    ensures
        "pomodoro"@ != "20-20-20"@,
        "pomodoro"@ != "52-17"@,
        "pomodoro"@ != "90-min"@,
        "20-20-20"@ != "52-17"@,
        "20-20-20"@ != "90-min"@,
        "52-17"@ != "90-min"@,
        preset_of("custom"@) is None,
{
    reveal_strlit("pomodoro");
    reveal_strlit("20-20-20");
    reveal_strlit("52-17");
    reveal_strlit("90-min");
    reveal_strlit("custom");
    assert("pomodoro"@[0] == 'p');
    assert("20-20-20"@[0] == '2');
    assert("52-17"@[0] == '5');
    assert("90-min"@[0] == '9');
    assert("custom"@[0] == 'c');
}

/// Overrides the interval and duration fields with those of the configured
/// work method. A method without a preset, such as `custom`, changes nothing.
pub fn enforce_preset(cfg: &mut AppConfig)
    ensures
        *final(cfg) == preset_enforced(*old(cfg)),
{
    if !str_eq(cfg.work_method.as_str(), "custom") {
        match work_method_preset(cfg.work_method.as_str()) {
            Some(preset) => {
                cfg.small_break_interval_min = preset.small_break_interval_min;
                cfg.small_break_duration_sec = preset.small_break_duration_sec;
                cfg.big_break_interval_min = preset.big_break_interval_min;
                cfg.big_break_duration_min = preset.big_break_duration_min;
                cfg.eye_exercise_interval_min = preset.eye_exercise_interval_min;
            },
            None => {},
        }
    } else {
        proof {
            lemma_method_names_differ();
        }
    }
}

} // verus!
