//! A break-reminder scheduling engine with a popup arbitration queue, and the
//! smaller decisions of the desktop application built around them.
//!
//! The scheduler ([`scheduler`]) keeps one timer per kind of reminder and
//! decides on every tick, from the clock and the signals it is handed, which
//! reminder is due. The arbiter ([`popup_manager`]) decides which reminder
//! surface is on screen and which ones wait. What holds of them in general is
//! proved in [`timer_laws`] and [`arbiter_laws`].
//!
//! Everything here works on plain values. Where a result comes from outside
//! (the local clock, a random number, a JSON parser, the Unicode tables), the
//! call stands behind a small function whose contract is trusted, not proved;
//! each of them says so.

pub mod ads;
pub mod arbiter_laws;
pub mod audio;
pub mod chance;
pub mod clock;
pub mod config;
pub mod i18n;
pub mod language;
pub mod popup_manager;
pub mod scheduler;
pub mod signals;
pub mod telemetry;
pub mod text;
pub mod timebase;
pub mod timer_laws;
pub mod tracker;
pub mod window;
pub mod youtube;
