//! Decisions around sound playback. Producing and playing the sound is not
//! done here.

use vstd::prelude::*;
use crate::config::AppConfig;
use crate::text::str_eq;

verus! {

/// Loudest volume that the sound engine accepts.
pub const MAX_VOLUME: u32 = 100;

/// Whether `name` names one of the sounds of the built-in generators.
pub open spec fn native_sound(name: Seq<char>) -> bool {
    ||| name == "brown_noise"@
    ||| name == "rain"@
    ||| name == "white_noise"@
    ||| name == "pink_noise"@
    ||| name == "drone"@
    ||| name == "forest"@
}

/// Whether `name` names one of the sounds of the built-in generators.
pub fn is_native_sound(name: &str) -> (r: bool)
    ensures
        r == native_sound(name@),
{
    str_eq(name, "brown_noise") || str_eq(name, "rain") || str_eq(name, "white_noise") || str_eq(
        name,
        "pink_noise",
    ) || str_eq(name, "drone") || str_eq(name, "forest")
}

/// A volume as the sound engine stores it: not above the maximum.
pub fn clamp_volume(volume: u32) -> (r: u32)
    ensures
        r == if volume <= MAX_VOLUME {
            volume
        } else {
            MAX_VOLUME
        },
{
    if volume <= MAX_VOLUME {
        volume
    } else {
        MAX_VOLUME
    }
}

/// What the music toggle does.
#[derive(Debug, Clone, Copy, PartialEq, Eq, Structural)]
pub enum MusicAction {
    /// Something is playing: stop it.
    Stop,
    /// Play the native sound that was played last.
    PlayNative,
    /// Search for what was played last and play a hit.
    PlaySearch,
    /// Nothing was played before: do nothing.
    Nothing,
}

/// The text of an optional setting; empty when it is not set.
pub open spec fn text_or_empty(s: Option<String>) -> Seq<char> {
    match s {
        Some(t) => t@,
        None => Seq::empty(),
    }
}

/// What the music toggle does, given whether something is playing and what
/// the configuration remembers of the last playback.
pub open spec fn music_action_of(playing: bool, cfg: AppConfig) -> MusicAction {
    let last_type = text_or_empty(cfg.audio_last_type);
    let last_source = text_or_empty(cfg.audio_last_source);
    if playing {
        MusicAction::Stop
    } else if native_sound(last_type) {
        MusicAction::PlayNative
    } else if last_source == "youtube"@ && last_type.len() > 0 {
        MusicAction::PlaySearch
    } else {
        MusicAction::Nothing
    }
}

/// Decides what the music toggle does.
pub fn music_action(playing: bool, config: &AppConfig) -> (r: MusicAction)
    ensures
        r == music_action_of(playing, *config),
{
    if playing {
        return MusicAction::Stop;
    }
    let last_type: &str = match &config.audio_last_type {
        Some(t) => t.as_str(),
        None => "",
    };
    let last_source: &str = match &config.audio_last_source {
        Some(t) => t.as_str(),
        None => "",
    };
    proof {
        reveal_strlit("");
        reveal_strlit("brown_noise");
        reveal_strlit("rain");
        reveal_strlit("white_noise");
        reveal_strlit("pink_noise");
        reveal_strlit("drone");
        reveal_strlit("forest");
        assert(""@ =~= Seq::<char>::empty());
        assert(last_type@ == text_or_empty(config.audio_last_type));
        assert(last_source@ == text_or_empty(config.audio_last_source));
        if last_type@.len() == 0 {
            assert(last_type@ =~= ""@);
        }
    }
    if is_native_sound(last_type) {
        MusicAction::PlayNative
    } else if str_eq(last_source, "youtube") && !str_eq(last_type, "") {
        MusicAction::PlaySearch
    } else {
        MusicAction::Nothing
    }
}

} // verus!
