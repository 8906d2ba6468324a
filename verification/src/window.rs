//! How the surface of each kind is laid out. The window host builds the
//! surface; what it is told to build is decided here.

use vstd::prelude::*;
use crate::popup_manager::PopupType;

verus! {

/// The properties of a surface that the window host is asked to set.
#[derive(Debug, Clone, Copy, PartialEq, Eq)]
pub struct WindowLayout {
    pub fullscreen: bool,
    pub decorations: bool,
    pub closable: bool,
    pub resizable: bool,
    pub always_on_top: bool,
    pub centered: bool,
    /// Inner width and height; none for a full-screen surface.
    pub size: Option<(u32, u32)>,
}

/// A surface of fixed inner size that stays on top.
pub open spec fn fixed_size(width: u32, height: u32, centered: bool) -> WindowLayout {
    WindowLayout {
        fullscreen: false,
        decorations: true,
        closable: true,
        resizable: false,
        always_on_top: true,
        centered,
        size: Some((width, height)),
    }
}

/// The layout of the surface of a kind: a break covers the screen in the
/// aggressive mode, without frame or close button; otherwise every surface
/// is a small fixed window on top, centred unless it is the water reminder.
pub open spec fn layout_of(kind: PopupType, aggressive: bool) -> WindowLayout {
    match kind {
        PopupType::BigBreak | PopupType::SmallBreak => if aggressive {
            WindowLayout {
                fullscreen: true,
                decorations: false,
                closable: false,
                resizable: true,
                always_on_top: true,
                centered: false,
                size: None,
            }
        } else {
            fixed_size(460, 390, true)
        },
        PopupType::EyeExercise | PopupType::StretchExercise | PopupType::BreathingExercise => fixed_size(
            400,
            350,
            true,
        ),
        PopupType::WaterReminder => fixed_size(370, 300, false),
    }
}

/// The title of the surface of a kind.
pub open spec fn title_of(kind: PopupType, aggressive: bool) -> Seq<char> {
    match kind {
        PopupType::BigBreak | PopupType::SmallBreak => if aggressive {
            "HealthDesk - Break"@
        } else {
            "HealthDesk - Break!"@
        },
        PopupType::EyeExercise | PopupType::StretchExercise | PopupType::BreathingExercise => "HealthDesk - Exercise"@,
        PopupType::WaterReminder => "HealthDesk - Water"@,
    }
}

fn fixed(width: u32, height: u32, centered: bool) -> (r: WindowLayout)
    ensures
        r == fixed_size(width, height, centered),
{
    WindowLayout {
        fullscreen: false,
        decorations: true,
        closable: true,
        resizable: false,
        always_on_top: true,
        centered,
        size: Some((width, height)),
    }
}

/// The layout of the surface of `kind`.
pub fn window_layout(kind: PopupType, aggressive: bool) -> (r: WindowLayout)
    ensures
        r == layout_of(kind, aggressive),
{
    match kind {
        PopupType::BigBreak => if aggressive {
            WindowLayout {
                fullscreen: true,
                decorations: false,
                closable: false,
                resizable: true,
                always_on_top: true,
                centered: false,
                size: None,
            }
        } else {
            fixed(460, 390, true)
        },
        PopupType::SmallBreak => if aggressive {
            WindowLayout {
                fullscreen: true,
                decorations: false,
                closable: false,
                resizable: true,
                always_on_top: true,
                centered: false,
                size: None,
            }
        } else {
            fixed(460, 390, true)
        },
        PopupType::EyeExercise => fixed(400, 350, true),
        PopupType::StretchExercise => fixed(400, 350, true),
        PopupType::BreathingExercise => fixed(400, 350, true),
        PopupType::WaterReminder => fixed(370, 300, false),
    }
}

/// The title of the surface of `kind`.
pub fn window_title(kind: PopupType, aggressive: bool) -> (r: &'static str)
    ensures
        r@ == title_of(kind, aggressive),
{
    match kind {
        PopupType::BigBreak => if aggressive {
            "HealthDesk - Break"
        } else {
            "HealthDesk - Break!"
        },
        PopupType::SmallBreak => if aggressive {
            "HealthDesk - Break"
        } else {
            "HealthDesk - Break!"
        },
        PopupType::EyeExercise => "HealthDesk - Exercise",
        PopupType::StretchExercise => "HealthDesk - Exercise",
        PopupType::BreathingExercise => "HealthDesk - Exercise",
        PopupType::WaterReminder => "HealthDesk - Water",
    }
}

} // verus!
