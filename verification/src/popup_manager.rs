//! The popup arbiter: which reminder surface is shown, which ones wait, and in
//! what order they are served.

use vstd::prelude::*;
use vstd::string::StringExecFns;
use crate::config::AppConfig;
use crate::scheduler::SchedulerInner;
use crate::text::decimal;
use crate::text::str_eq;
use crate::text::u32_to_decimal;

verus! {

/// The closed set of reminder surfaces.
#[derive(Debug, Clone, Copy, PartialEq, Eq, Structural)]
pub enum PopupType {
    BigBreak,
    SmallBreak,
    EyeExercise,
    StretchExercise,
    WaterReminder,
    BreathingExercise,
}

/// Priority rank of a kind; a lower number is served first.
pub open spec fn rank(kind: PopupType) -> u8 {
    match kind {
        PopupType::BigBreak => 1,
        PopupType::SmallBreak => 2,
        PopupType::EyeExercise => 3,
        PopupType::StretchExercise => 3,
        PopupType::WaterReminder => 4,
        PopupType::BreathingExercise => 3,
    }
}

/// The label under which the surface of a kind is addressed.
pub open spec fn label_of(kind: PopupType) -> Seq<char> {
    match kind {
        PopupType::BigBreak => "break-big"@,
        PopupType::SmallBreak => "break-small"@,
        PopupType::EyeExercise => "exercise-eye"@,
        PopupType::StretchExercise => "exercise-stretch"@,
        PopupType::WaterReminder => "water-reminder"@,
        PopupType::BreathingExercise => "exercise-breathing"@,
    }
}

/// The route that the surface of a kind loads. Only the two break kinds carry
/// the mode and the duration; the duration is written in decimal.
pub open spec fn url_of(kind: PopupType, aggressive: bool, duration_sec: nat) -> Seq<char> {
    match kind {
        PopupType::BigBreak => if aggressive {
            "/break-fullscreen?type=big&duration="@ + decimal(duration_sec)
        } else {
            "/break?type=big&duration="@ + decimal(duration_sec)
        },
        PopupType::SmallBreak => if aggressive {
            "/break-fullscreen?type=small&duration="@ + decimal(duration_sec)
        } else {
            "/break?type=small&duration="@ + decimal(duration_sec)
        },
        PopupType::EyeExercise => "/eye-exercise"@,
        PopupType::StretchExercise => "/stretch-exercise"@,
        PopupType::WaterReminder => "/water-reminder"@,
        PopupType::BreathingExercise => "/breathing-exercise"@,
    }
}

/// Whether a break mode text selects the full-screen presentation.
pub fn is_aggressive(break_mode: &str) -> (r: bool)
    ensures
        r == (break_mode@ == "aggressive"@),
{
    str_eq(break_mode, "aggressive")
}

impl PopupType {
    pub fn priority(&self) -> (r: u8)
        ensures
            r == rank(*self),
    {
        match self {
            PopupType::BigBreak => 1,
            PopupType::SmallBreak => 2,
            PopupType::EyeExercise => 3,
            PopupType::StretchExercise => 3,
            PopupType::WaterReminder => 4,
            PopupType::BreathingExercise => 3,
        }
    }

    pub fn label(&self) -> (r: &'static str)
        ensures
            r@ == label_of(*self),
    {
        match self {
            PopupType::BigBreak => "break-big",
            PopupType::SmallBreak => "break-small",
            PopupType::EyeExercise => "exercise-eye",
            PopupType::StretchExercise => "exercise-stretch",
            PopupType::WaterReminder => "water-reminder",
            PopupType::BreathingExercise => "exercise-breathing",
        }
    }

    pub fn url(&self, break_mode: &str, duration_sec: u32) -> (r: String)
        ensures
            r@ == url_of(*self, break_mode@ == "aggressive"@, duration_sec as nat),
    {
        match self {
            PopupType::BigBreak => {
                let prefix = if is_aggressive(break_mode) {
                    "/break-fullscreen?type=big&duration="
                } else {
                    "/break?type=big&duration="
                };
                let mut out = String::from_str(prefix);
                let digits = u32_to_decimal(duration_sec);
                out.append(digits.as_str());
                out
            },
            PopupType::SmallBreak => {
                let prefix = if is_aggressive(break_mode) {
                    "/break-fullscreen?type=small&duration="
                } else {
                    "/break?type=small&duration="
                };
                let mut out = String::from_str(prefix);
                let digits = u32_to_decimal(duration_sec);
                out.append(digits.as_str());
                out
            },
            PopupType::EyeExercise => String::from_str("/eye-exercise"),
            PopupType::StretchExercise => String::from_str("/stretch-exercise"),
            PopupType::WaterReminder => String::from_str("/water-reminder"),
            PopupType::BreathingExercise => String::from_str("/breathing-exercise"),
        }
    }
}

/// What the arbiter holds, as plain values: the kind on screen and the kinds
/// that wait, in the order in which they will be served.
pub struct Arbiter {
    pub current: Option<PopupType>,
    pub pending: Seq<PopupType>,
}

/// What became of a kind that was offered to the arbiter.
#[derive(Debug, Clone, Copy, PartialEq, Eq)]
pub enum Admission {
    /// The kind is already on screen or already waits; nothing changed.
    Duplicate,
    /// The kind is on screen now. `replaced` is the kind it pushed off the
    /// screen, which is dropped and will not come back by itself.
    Shown { replaced: Option<PopupType> },
    /// A kind of the same or a higher priority is on screen; this one waits.
    Queued,
}

/// Number of leading entries of `pending` whose rank does not exceed `r`: the
/// place where a newcomer of rank `r` waits behind everything of its own rank.
pub open spec fn slot(pending: Seq<PopupType>, r: u8) -> int
    decreases pending.len(),
{
    if pending.len() == 0 || rank(pending[0]) > r {
        0
    } else {
        1 + slot(pending.drop_first(), r)
    }
}

impl Arbiter {
    /// Nothing waits twice, what is on screen does not wait, the waiting kinds
    /// stand in rank order, nothing waits while the screen is free, and nothing
    /// that waits outranks what is on screen.
    pub open spec fn wf(self) -> bool {
        &&& self.pending.no_duplicates()
        &&& forall|i: int, j: int|
            0 <= i < j < self.pending.len() ==> rank(self.pending[i]) <= rank(self.pending[j])
        &&& match self.current {
            Some(c) => !self.pending.contains(c) && forall|i: int|
                0 <= i < self.pending.len() ==> rank(c) <= rank(#[trigger] self.pending[i]),
            None => self.pending.len() == 0,
        }
    }

    /// Whether `kind` is on screen or waits.
    pub open spec fn holds(self, kind: PopupType) -> bool {
        self.current == Some(kind) || self.pending.contains(kind)
    }

    /// Whether `kind` would push the kind on screen aside.
    pub open spec fn preempts(self, kind: PopupType) -> bool {
        match self.current {
            Some(c) => rank(kind) < rank(c),
            None => false,
        }
    }

    /// The verdict on an offered kind.
    pub open spec fn admission(self, kind: PopupType) -> Admission {
        if self.holds(kind) {
            Admission::Duplicate
        } else if self.current is None || self.preempts(kind) {
            Admission::Shown { replaced: self.current }
        } else {
            Admission::Queued
        }
    }

    /// The arbiter after `kind` has been offered.
    pub open spec fn enqueue(self, kind: PopupType) -> Arbiter {
        match self.admission(kind) {
            Admission::Duplicate => self,
            Admission::Shown { .. } => Arbiter { current: Some(kind), pending: self.pending },
            Admission::Queued => Arbiter {
                current: self.current,
                pending: self.pending.insert(slot(self.pending, rank(kind)), kind),
            },
        }
    }

    /// The arbiter after the surface on screen has gone: the first waiting kind
    /// takes the screen, or the screen stays free.
    pub open spec fn close(self) -> Arbiter {
        if self.pending.len() > 0 {
            Arbiter { current: Some(self.pending[0]), pending: self.pending.drop_first() }
        } else {
            Arbiter { current: None, pending: self.pending }
        }
    }
}

/// An entry of the pending queue.
#[derive(Debug, Clone, Copy, PartialEq, Eq, Structural)]
pub struct QueuedPopup {
    pub popup_type: PopupType,
    pub seq: u64,
}

/// Whether `a` is served no later than `b`: by rank first, by sequence number
/// among equal ranks.
pub open spec fn served_before(a: QueuedPopup, b: QueuedPopup) -> bool {
    rank(a.popup_type) < rank(b.popup_type) || (rank(a.popup_type) == rank(b.popup_type) && a.seq
        <= b.seq)
}

/// The kinds of a queue, in queue order.
pub open spec fn kinds_of(queue: Seq<QueuedPopup>) -> Seq<PopupType> {
    queue.map_values(|q: QueuedPopup| q.popup_type)
}

/// The arbiter's state.
pub struct PopupManagerInner {
    queue: Vec<QueuedPopup>,
    seq_counter: u64,
    current_popup: Option<PopupType>,
}

impl View for PopupManagerInner {
    type V = Arbiter;

    closed spec fn view(&self) -> Arbiter {
        Arbiter { current: self.current_popup, pending: kinds_of(self.queue@) }
    }
}

impl PopupManagerInner {
    #[verifier::type_invariant]
    closed spec fn inv(&self) -> bool {
        &&& self@.wf()
        &&& forall|i: int, j: int|
            0 <= i < j < self.queue@.len() ==> served_before(self.queue@[i], self.queue@[j])
        &&& forall|i: int| 0 <= i < self.queue@.len() ==> (#[trigger] self.queue@[i]).seq <= self.seq_counter
    }

    /// The last sequence number that was given out.
    pub closed spec fn issued(&self) -> u64 {
        self.seq_counter
    }

    /// An arbiter with a free screen and nothing waiting.
    pub fn new() -> (r: Self)
        ensures
            r@.current is None,
            r@.pending.len() == 0,
            r@.wf(),
            r.issued() == 0,
    {
        Self { queue: Vec::new(), seq_counter: 0, current_popup: None }
    }

    /// The kind on screen, if any.
    pub fn current_popup(&self) -> (r: Option<PopupType>)
        ensures
            r == self@.current,
            self@.wf(),
    {
        proof {
            use_type_invariant(self);
        }
        self.current_popup
    }

    /// The waiting kinds in the order in which they will be served.
    pub fn pending(&self) -> (r: Vec<PopupType>)
        ensures
            r@ == self@.pending,
    {
        let mut out: Vec<PopupType> = Vec::new();
        let mut i: usize = 0;
        while i < self.queue.len()
            invariant
                i <= self.queue@.len(),
                out@ == kinds_of(self.queue@).take(i as int),
            decreases self.queue@.len() - i,
        {
            out.push(self.queue[i].popup_type);
            assert(kinds_of(self.queue@).take(i + 1) =~= kinds_of(self.queue@).take(i as int).push(
                self.queue@[i as int].popup_type,
            ));
            i += 1;
        }
        assert(kinds_of(self.queue@).take(i as int) =~= kinds_of(self.queue@));
        out
    }

    /// Whether `kind` waits in the queue.
    fn waits(&self, kind: PopupType) -> (r: bool)
        ensures
            r == self@.pending.contains(kind),
    {
        let mut i: usize = 0;
        while i < self.queue.len()
            invariant
                i <= self.queue@.len(),
                forall|k: int| 0 <= k < i ==> kinds_of(self.queue@)[k] != kind,
            decreases self.queue@.len() - i,
        {
            if self.queue[i].popup_type == kind {
                assert(kinds_of(self.queue@)[i as int] == kind);
                return true;
            }
            i += 1;
        }
        false
    }

    /// Offers `kind` to the arbiter.
    ///
    /// A kind that is on screen or waits already is ignored. Otherwise it takes
    /// the screen if the screen is free or holds a kind of strictly lower
    /// priority, which is then dropped; else it waits behind every kind of its
    /// own or a higher priority. A sequence number is used up unless the kind
    /// was ignored; the counter stops at its largest value.
    pub fn enqueue(&mut self, kind: PopupType) -> (a: Admission)
        ensures
            a == old(self)@.admission(kind),
            final(self)@ == old(self)@.enqueue(kind),
            final(self)@.wf(),
            final(self).issued() == (if a is Duplicate || old(self).issued() == u64::MAX {
                old(self).issued()
            } else {
                (old(self).issued() + 1) as u64
            }),
    {
        proof {
            use_type_invariant(&*self);
        }
        if let Some(c) = self.current_popup {
            if c == kind {
                return Admission::Duplicate;
            }
        }
        if self.waits(kind) {
            return Admission::Duplicate;
        }
        let seq: u64 = if self.seq_counter < u64::MAX {
            self.seq_counter + 1
        } else {
            self.seq_counter
        };
        self.seq_counter = seq;
        match self.current_popup {
            None => {
                self.current_popup = Some(kind);
                Admission::Shown { replaced: None }
            },
            Some(c) => {
                if kind.priority() < c.priority() {
                    self.current_popup = Some(kind);
                    Admission::Shown { replaced: Some(c) }
                } else {
                    let r: u8 = kind.priority();
                    let mut idx: usize = 0;
                    while idx < self.queue.len() && self.queue[idx].popup_type.priority() <= r
                        invariant
                            idx <= self.queue@.len(),
                            r == rank(kind),
                            forall|k: int|
                                0 <= k < idx ==> rank((#[trigger] self.queue@[k]).popup_type) <= r,
                        decreases self.queue@.len() - idx,
                    {
                        idx += 1;
                    }
                    let entry = QueuedPopup { popup_type: kind, seq };
                    proof {
                        let before = self.queue@;
                        let after = before.insert(idx as int, entry);
                        lemma_slot_found(kinds_of(before), r, idx as int);
                        assert(kinds_of(after) =~= kinds_of(before).insert(idx as int, kind));
                        lemma_insert_keeps_order(before, idx as int, entry);
                        lemma_insert_keeps_distinct(kinds_of(before), idx as int, kind);
                    }
                    let mut queue: Vec<QueuedPopup> = Vec::new();
                    core::mem::swap(&mut queue, &mut self.queue);
                    queue.insert(idx, entry);
                    self.queue = queue;
                    Admission::Queued
                }
            },
        }
    }

    /// Reports that the surface on screen has gone, however it went.
    ///
    /// The first waiting kind, if there is one, takes the screen and is
    /// returned; otherwise the screen is free. The second component is the
    /// kind that was on screen before the call.
    pub fn closed(&mut self) -> (r: (Option<PopupType>, Option<PopupType>))
        ensures
            final(self)@ == old(self)@.close(),
            r.0 == final(self)@.current,
            r.1 == old(self)@.current,
            final(self)@.wf(),
            final(self).issued() == old(self).issued(),
    {
        proof {
            use_type_invariant(&*self);
        }
        let was = self.current_popup;
        if self.queue.len() > 0 {
            proof {
                let before = self.queue@;
                assert(kinds_of(before.remove(0)) =~= kinds_of(before).drop_first());
                assert forall|i: int| 0 <= i < before.remove(0).len() implies kinds_of(
                    before,
                )[0] != #[trigger] kinds_of(before.remove(0))[i] by {
                    assert(kinds_of(before)[i + 1] == kinds_of(before.remove(0))[i]);
                }
                assert(kinds_of(before).drop_first().no_duplicates());
            }
            let mut queue: Vec<QueuedPopup> = Vec::new();
            core::mem::swap(&mut queue, &mut self.queue);
            let next = queue.remove(0);
            self.queue = queue;
            self.current_popup = Some(next.popup_type);
            (Some(next.popup_type), was)
        } else {
            self.current_popup = None;
            (None, was)
        }
    }
}

/// Seconds for which every surface but the two breaks is shown.
pub const SHORT_DISPLAY_SEC: u32 = 30;

/// Seconds for which a breathing exercise that has just become due is shown.
pub const BREATHING_DISPLAY_SEC: u32 = 80;

/// The order to the window host to show a surface.
#[derive(Debug, Clone, Copy, PartialEq, Eq, Structural)]
pub struct ShowCommand {
    pub kind: PopupType,
    pub aggressive: bool,
    pub duration_sec: u32,
}

impl ShowCommand {
    /// The label under which the surface is addressed.
    pub fn label(&self) -> (r: &'static str)
        ensures
            r@ == label_of(self.kind),
    {
        self.kind.label()
    }

    /// The route that the surface loads.
    pub fn url(&self) -> (r: String)
        ensures
            r@ == url_of(self.kind, self.aggressive, self.duration_sec as nat),
    {
        proof {
            reveal_strlit("moderate");
            reveal_strlit("aggressive");
            assert("moderate"@.len() != "aggressive"@.len());
        }
        if self.aggressive {
            self.kind.url("aggressive", self.duration_sec)
        } else {
            self.kind.url("moderate", self.duration_sec)
        }
    }
}

/// What the window host has to do after a kind was offered: first close the
/// surface of `close`, if any, then carry out `show`, if any.
#[derive(Debug, Clone, Copy, PartialEq, Eq)]
pub struct Dispatch {
    pub close: Option<PopupType>,
    pub show: Option<ShowCommand>,
}

/// The configured length of a big break in seconds, as far as `u32` reaches.
pub open spec fn big_break_seconds(cfg: AppConfig) -> u32 {
    if cfg.big_break_duration_min * 60 > u32::MAX {
        u32::MAX
    } else {
        (cfg.big_break_duration_min * 60) as u32
    }
}

/// Seconds for which a kind is shown when it comes off the pending queue.
pub open spec fn queued_duration(kind: PopupType, cfg: AppConfig) -> u32 {
    match kind {
        PopupType::SmallBreak => cfg.small_break_duration_sec,
        PopupType::BigBreak => big_break_seconds(cfg),
        _ => SHORT_DISPLAY_SEC,
    }
}

/// Seconds for which a kind is shown when the scheduler announces it.
pub open spec fn announced_duration(kind: PopupType, cfg: AppConfig) -> u32 {
    match kind {
        PopupType::BreathingExercise => BREATHING_DISPLAY_SEC,
        _ => queued_duration(kind, cfg),
    }
}

/// Whether an announced kind is shown full-screen: only a break is, and only
/// in the aggressive break mode.
pub open spec fn announced_aggressive(kind: PopupType, cfg: AppConfig) -> bool {
    (kind == PopupType::SmallBreak || kind == PopupType::BigBreak) && cfg.break_mode@
        == "aggressive"@
}

/// What the window host is told after `kind` was offered to `arbiter` with
/// the given presentation.
pub open spec fn dispatch_of(arbiter: Arbiter, kind: PopupType, aggressive: bool, duration_sec: u32) -> Dispatch {
    match arbiter.admission(kind) {
        Admission::Shown { replaced } => Dispatch {
            close: replaced,
            show: Some(ShowCommand { kind, aggressive, duration_sec }),
        },
        _ => Dispatch { close: None, show: None },
    }
}

/// The configured length of a big break in seconds.
pub fn big_break_duration_sec(config: &AppConfig) -> (r: u32)
    ensures
        r == big_break_seconds(*config),
{
    let secs: u64 = (config.big_break_duration_min as u64) * 60;
    if secs > u32::MAX as u64 {
        u32::MAX
    } else {
        secs as u32
    }
}

/// Seconds for which `kind` is shown when it comes off the pending queue.
pub fn display_duration(kind: PopupType, config: &AppConfig) -> (r: u32)
    ensures
        r == queued_duration(kind, *config),
{
    match kind {
        PopupType::SmallBreak => config.small_break_duration_sec,
        PopupType::BigBreak => big_break_duration_sec(config),
        PopupType::EyeExercise => SHORT_DISPLAY_SEC,
        PopupType::StretchExercise => SHORT_DISPLAY_SEC,
        PopupType::WaterReminder => SHORT_DISPLAY_SEC,
        PopupType::BreathingExercise => SHORT_DISPLAY_SEC,
    }
}

/// An arbiter with a free screen and nothing waiting.
pub fn create_popup_manager() -> (r: PopupManagerInner)
    ensures
        r@.current is None,
        r@.pending.len() == 0,
        r@.wf(),
        r.issued() == 0,
{
    PopupManagerInner::new()
}

/// Offers `popup_type` to the arbiter and says what the window host has to
/// do. A kind that takes the screen freezes the scheduler's triggers; one that
/// waits or is ignored leaves the scheduler as it is.
pub fn enqueue_popup(
    manager: &mut PopupManagerInner,
    scheduler: &mut SchedulerInner,
    popup_type: PopupType,
    break_mode: &str,
    duration_sec: u32,
) -> (d: Dispatch)
    ensures
        final(manager)@ == old(manager)@.enqueue(popup_type),
        final(manager)@.wf(),
        d == dispatch_of(
            old(manager)@,
            popup_type,
            break_mode@ == "aggressive"@,
            duration_sec,
        ),
        *final(scheduler) == (if d.show is Some {
            SchedulerInner { popup_paused: true, ..*old(scheduler) }
        } else {
            *old(scheduler)
        }),
{
    match manager.enqueue(popup_type) {
        Admission::Shown { replaced } => {
            scheduler.pause_for_popup();
            Dispatch {
                close: replaced,
                show: Some(
                    ShowCommand {
                        kind: popup_type,
                        aggressive: is_aggressive(break_mode),
                        duration_sec,
                    },
                ),
            }
        },
        Admission::Duplicate => Dispatch { close: None, show: None },
        Admission::Queued => Dispatch { close: None, show: None },
    }
}

/// Offers a reminder that the scheduler announced, with the presentation that
/// belongs to its kind: a break in the configured mode and length, every other
/// kind in the moderate mode for a fixed short time.
pub fn announce(
    manager: &mut PopupManagerInner,
    scheduler: &mut SchedulerInner,
    kind: PopupType,
    config: &AppConfig,
) -> (d: Dispatch)
    ensures
        final(manager)@ == old(manager)@.enqueue(kind),
        final(manager)@.wf(),
        d == dispatch_of(
            old(manager)@,
            kind,
            announced_aggressive(kind, *config),
            announced_duration(kind, *config),
        ),
        *final(scheduler) == (if d.show is Some {
            SchedulerInner { popup_paused: true, ..*old(scheduler) }
        } else {
            *old(scheduler)
        }),
{
    proof {
        reveal_strlit("moderate");
        reveal_strlit("aggressive");
        assert("moderate"@.len() != "aggressive"@.len());
    }
    match kind {
        PopupType::SmallBreak => enqueue_popup(
            manager,
            scheduler,
            kind,
            config.break_mode.as_str(),
            config.small_break_duration_sec,
        ),
        PopupType::BigBreak => enqueue_popup(
            manager,
            scheduler,
            kind,
            config.break_mode.as_str(),
            big_break_duration_sec(config),
        ),
        PopupType::BreathingExercise => enqueue_popup(
            manager,
            scheduler,
            kind,
            "moderate",
            BREATHING_DISPLAY_SEC,
        ),
        PopupType::EyeExercise => enqueue_popup(
            manager,
            scheduler,
            kind,
            "moderate",
            SHORT_DISPLAY_SEC,
        ),
        PopupType::StretchExercise => enqueue_popup(
            manager,
            scheduler,
            kind,
            "moderate",
            SHORT_DISPLAY_SEC,
        ),
        PopupType::WaterReminder => enqueue_popup(
            manager,
            scheduler,
            kind,
            "moderate",
            SHORT_DISPLAY_SEC,
        ),
    }
}

/// Reports at `now` that the surface on screen has gone.
///
/// If a kind waits, the first one takes the screen and the order to show it
/// is returned; the scheduler stays frozen. Otherwise the screen is free, and
/// the scheduler is released with the timers of the closed kind restarted.
pub fn popup_closed(
    manager: &mut PopupManagerInner,
    scheduler: &mut SchedulerInner,
    break_mode: &str,
    config: &AppConfig,
    now: i64,
) -> (next: Option<ShowCommand>)
    ensures
        final(manager)@ == old(manager)@.close(),
        final(manager)@.wf(),
        next == (match final(manager)@.current {
            Some(kind) => Some(
                ShowCommand {
                    kind,
                    aggressive: break_mode@ == "aggressive"@,
                    duration_sec: queued_duration(kind, *config),
                },
            ),
            None => None,
        }),
        *final(scheduler) == (if next is Some {
            *old(scheduler)
        } else {
            old(scheduler).after_popup(old(manager)@.current, now)
        }),
{
    let (next, closed) = manager.closed();
    match next {
        Some(kind) => Some(
            ShowCommand {
                kind,
                aggressive: is_aggressive(break_mode),
                duration_sec: display_duration(kind, config),
            },
        ),
        None => {
            scheduler.resume_after_popup(closed, now);
            None
        },
    }
}

/// Whether the surface labelled `label` is the one on screen.
pub open spec fn shows_label(arbiter: Arbiter, label: Seq<char>) -> bool {
    match arbiter.current {
        Some(kind) => label_of(kind) == label,
        None => false,
    }
}

/// Reports at `now` that the window labelled `label` was destroyed without
/// having been reported closed. If it was the surface on screen, this is a
/// closing like any other; a window of any other label, the main window
/// among them, changes nothing.
pub fn window_destroyed(
    manager: &mut PopupManagerInner,
    scheduler: &mut SchedulerInner,
    label: &str,
    break_mode: &str,
    config: &AppConfig,
    now: i64,
) -> (next: Option<ShowCommand>)
    ensures
        final(manager)@.wf(),
        final(manager)@ == (if shows_label(old(manager)@, label@) {
            old(manager)@.close()
        } else {
            old(manager)@
        }),
        next == (match final(manager)@.current {
            Some(kind) if shows_label(old(manager)@, label@) => Some(
                ShowCommand {
                    kind,
                    aggressive: break_mode@ == "aggressive"@,
                    duration_sec: queued_duration(kind, *config),
                },
            ),
            _ => None,
        }),
        *final(scheduler) == (if shows_label(old(manager)@, label@) && next is None {
            old(scheduler).after_popup(old(manager)@.current, now)
        } else {
            *old(scheduler)
        }),
{
    let is_current: bool = match manager.current_popup() {
        Some(kind) => str_eq(kind.label(), label),
        None => false,
    };
    if is_current {
        popup_closed(manager, scheduler, break_mode, config, now)
    } else {
        None
    }
}

/// An index that has only ranks up to `r` before it, and a higher rank at it
/// unless it is the end, is the slot of rank `r`.
proof fn lemma_slot_found(pending: Seq<PopupType>, r: u8, idx: int)
    requires
        0 <= idx <= pending.len(),
        forall|i: int| 0 <= i < idx ==> rank(#[trigger] pending[i]) <= r,
        idx < pending.len() ==> rank(pending[idx]) > r,
    ensures
        slot(pending, r) == idx,
    decreases pending.len(),
{
    if pending.len() == 0 || rank(pending[0]) > r {
        if idx > 0 {
            assert(rank(pending[0]) <= r);
        }
    } else {
        let rest = pending.drop_first();
        assert forall|i: int| 0 <= i < idx - 1 implies rank(#[trigger] rest[i]) <= r by {
            assert(rest[i] == pending[i + 1]);
        }
        lemma_slot_found(rest, r, idx - 1);
    }
}

/// An entry with the largest sequence number, put at the slot of its rank,
/// leaves the queue in serving order.
proof fn lemma_insert_keeps_order(queue: Seq<QueuedPopup>, idx: int, entry: QueuedPopup)
    requires
        0 <= idx <= queue.len(),
        forall|i: int, j: int| 0 <= i < j < queue.len() ==> served_before(queue[i], queue[j]),
        forall|i: int| 0 <= i < queue.len() ==> (#[trigger] queue[i]).seq <= entry.seq,
        forall|i: int|
            0 <= i < idx ==> rank((#[trigger] queue[i]).popup_type) <= rank(entry.popup_type),
        idx < queue.len() ==> rank(queue[idx].popup_type) > rank(entry.popup_type),
    ensures
        forall|i: int, j: int|
            0 <= i < j < queue.len() + 1 ==> served_before(
                queue.insert(idx, entry)[i],
                queue.insert(idx, entry)[j],
            ),
        forall|i: int, j: int|
            0 <= i < j < queue.len() + 1 ==> rank(kinds_of(queue.insert(idx, entry))[i]) <= rank(
                kinds_of(queue.insert(idx, entry))[j],
            ),
{
    let after = queue.insert(idx, entry);
    assert forall|i: int, j: int| 0 <= i < j < queue.len() + 1 implies served_before(
        after[i],
        after[j],
    ) by {
        if j == idx {
            assert(after[i] == queue[i]);
        } else if i == idx {
            assert(after[j] == queue[j - 1]);
            if idx < j - 1 {
                assert(served_before(queue[idx], queue[j - 1]));
            }
        } else {
            let oi = if i < idx { i } else { i - 1 };
            let oj = if j < idx { j } else { j - 1 };
            assert(after[i] == queue[oi] && after[j] == queue[oj]);
            assert(served_before(queue[oi], queue[oj]));
        }
    }
    assert forall|i: int, j: int| 0 <= i < j < queue.len() + 1 implies rank(kinds_of(after)[i])
        <= rank(kinds_of(after)[j]) by {
        assert(served_before(after[i], after[j]));
    }
}

/// Putting a kind that is not in the sequence into it keeps the entries
/// distinct.
proof fn lemma_insert_keeps_distinct(pending: Seq<PopupType>, idx: int, kind: PopupType)
    requires
        0 <= idx <= pending.len(),
        pending.no_duplicates(),
        !pending.contains(kind),
    ensures
        pending.insert(idx, kind).no_duplicates(),
        forall|k: PopupType|
            pending.insert(idx, kind).contains(k) <==> (k == kind || pending.contains(k)),
{
    let after = pending.insert(idx, kind);
    assert forall|i: int, j: int| 0 <= i < after.len() && 0 <= j < after.len() && i != j implies after[i]
        != after[j] by {
        let oi = if i < idx { i } else { i - 1 };
        let oj = if j < idx { j } else { j - 1 };
        if i == idx {
            assert(after[j] == pending[oj]);
        } else if j == idx {
            assert(after[i] == pending[oi]);
        } else {
            assert(after[i] == pending[oi] && after[j] == pending[oj]);
        }
    }
    assert forall|k: PopupType| after.contains(k) <==> (k == kind || pending.contains(k)) by {
        if after.contains(k) {
            let i = choose|i: int| 0 <= i < after.len() && after[i] == k;
            if i != idx {
                let oi = if i < idx { i } else { i - 1 };
                assert(pending[oi] == k);
            }
        }
        if k == kind {
            assert(after[idx] == k);
        }
        if pending.contains(k) {
            let i = choose|i: int| 0 <= i < pending.len() && pending[i] == k;
            let ni = if i < idx { i } else { i + 1 };
            assert(after[ni] == k);
        }
    }
}

} // verus!
