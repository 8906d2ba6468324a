//! Laws of the popup arbiter, proved on its abstract state.

use vstd::prelude::*;
use crate::popup_manager::rank;
use crate::popup_manager::slot;
use crate::popup_manager::Admission;
use crate::popup_manager::Arbiter;
use crate::popup_manager::PopupType;

verus! {

/// The slot of a rank lies within the sequence, has only ranks up to that
/// rank before it, and a higher rank at it unless it is the end.
pub proof fn lemma_slot_bounds(pending: Seq<PopupType>, r: u8)
    ensures
        0 <= slot(pending, r) <= pending.len(),
        forall|i: int| 0 <= i < slot(pending, r) ==> rank(#[trigger] pending[i]) <= r,
        slot(pending, r) < pending.len() ==> rank(pending[slot(pending, r)]) > r,
    decreases pending.len(),
{
    if pending.len() == 0 || rank(pending[0]) > r {
    } else {
        let rest = pending.drop_first();
        lemma_slot_bounds(rest, r);
        assert forall|i: int| 0 <= i < slot(pending, r) implies rank(#[trigger] pending[i])
            <= r by {
            if i > 0 {
                assert(pending[i] == rest[i - 1]);
            }
        }
        if slot(pending, r) < pending.len() {
            assert(pending[slot(pending, r)] == rest[slot(rest, r)]);
        }
    }
}

/// The arbiter's invariant survives every offer, and an offered kind is held
/// afterwards: on screen or waiting.
pub proof fn lemma_enqueue_keeps_wf(a: Arbiter, kind: PopupType)
    requires
        a.wf(),
    ensures
        a.enqueue(kind).wf(),
        a.enqueue(kind).holds(kind),
{
    let b = a.enqueue(kind);
    if a.admission(kind) == Admission::Queued {
        let pos = slot(a.pending, rank(kind));
        lemma_slot_bounds(a.pending, rank(kind));
        let p = a.pending;
        let q = b.pending;
        assert forall|i: int, j: int| 0 <= i < q.len() && 0 <= j < q.len() && i != j implies q[i]
            != q[j] by {
            let oi = if i < pos { i } else { i - 1 };
            let oj = if j < pos { j } else { j - 1 };
            if i != pos && j != pos {
                assert(q[i] == p[oi] && q[j] == p[oj]);
            } else if i == pos {
                assert(q[j] == p[oj]);
            } else {
                assert(q[i] == p[oi]);
            }
        }
        assert forall|i: int, j: int| 0 <= i < j < q.len() implies rank(q[i]) <= rank(q[j]) by {
            let oi = if i < pos { i } else { i - 1 };
            let oj = if j < pos { j } else { j - 1 };
            if i != pos && j != pos {
                assert(q[i] == p[oi] && q[j] == p[oj]);
            } else if i == pos {
                assert(q[j] == p[oj]);
                if pos < oj {
                    assert(rank(p[pos]) <= rank(p[oj]));
                }
            } else {
                assert(q[i] == p[oi]);
            }
        }
        let c = a.current->0;
        assert forall|i: int| 0 <= i < q.len() implies rank(c) <= rank(#[trigger] q[i]) && q[i]
            != c by {
            if i != pos {
                let oi = if i < pos { i } else { i - 1 };
                assert(q[i] == p[oi]);
            }
        }
        assert(q[pos] == kind);
    }
}

/// The arbiter's invariant survives the closing of a surface.
pub proof fn lemma_close_keeps_wf(a: Arbiter)
    requires
        a.wf(),
    ensures
        a.close().wf(),
{
    if a.pending.len() > 0 {
        let p = a.pending;
        let q = p.drop_first();
        assert forall|i: int| 0 <= i < q.len() implies #[trigger] q[i] == p[i + 1] by {}
        assert forall|i: int| 0 <= i < q.len() implies rank(p[0]) <= rank(#[trigger] q[i]) && q[i]
            != p[0] by {
            assert(q[i] == p[i + 1]);
        }
    }
}

/// Dedup. A kind that is on screen or waits is ignored when it is offered
/// again: the arbiter stays exactly as it is. So offering a kind twice in a
/// row is the same as offering it once, and the kind is then held exactly
/// once: either on screen, or at one place of the queue.
pub proof fn lemma_enqueue_dedup(a: Arbiter, kind: PopupType)
    requires
        a.wf(),
    ensures
        a.holds(kind) ==> a.admission(kind) == Admission::Duplicate && a.enqueue(kind) == a,
        a.enqueue(kind).admission(kind) == Admission::Duplicate,
        a.enqueue(kind).enqueue(kind) == a.enqueue(kind),
        (a.enqueue(kind).current == Some(kind)) != a.enqueue(kind).pending.contains(kind),
        a.enqueue(kind).pending.no_duplicates(),
{
    lemma_enqueue_keeps_wf(a, kind);
}

/// Preemption. A kind of strictly higher priority than the one on screen
/// takes the screen at once. The kind it replaced is dropped: it is neither
/// on screen nor in the queue afterwards, and the queue is untouched.
pub proof fn lemma_preemption(a: Arbiter, shown: PopupType, kind: PopupType)
    requires
        a.wf(),
        a.current == Some(shown),
        rank(kind) < rank(shown),
    ensures
        a.admission(kind) == (Admission::Shown { replaced: Some(shown) }),
        a.enqueue(kind).current == Some(kind),
        a.enqueue(kind).pending == a.pending,
        !a.enqueue(kind).holds(shown),
{
    if a.pending.contains(kind) {
        let i = choose|i: int| 0 <= i < a.pending.len() && a.pending[i] == kind;
        assert(rank(shown) <= rank(a.pending[i]));
    }
}

/// A kind that does not outrank the one on screen waits: it is put behind
/// every waiting kind of its own or a higher priority and before every kind of
/// lower priority, and the kinds that waited before keep their order.
pub proof fn lemma_queued_behind_equals(a: Arbiter, kind: PopupType)
    requires
        a.wf(),
        a.admission(kind) == Admission::Queued,
    ensures
        ({
            let pos = slot(a.pending, rank(kind));
            let q = a.enqueue(kind).pending;
            &&& a.enqueue(kind).current == a.current
            &&& 0 <= pos < q.len() == a.pending.len() + 1
            &&& q[pos] == kind
            &&& q.remove(pos) == a.pending
            &&& forall|i: int| 0 <= i < pos ==> rank(#[trigger] q[i]) <= rank(kind)
            &&& forall|i: int| pos < i < q.len() ==> rank(#[trigger] q[i]) > rank(kind)
        }),
{
    let pos = slot(a.pending, rank(kind));
    let p = a.pending;
    let q = a.enqueue(kind).pending;
    lemma_slot_bounds(p, rank(kind));
    assert(q.remove(pos) =~= p);
    assert forall|i: int| 0 <= i < pos implies rank(#[trigger] q[i]) <= rank(kind) by {
        assert(q[i] == p[i]);
    }
    assert forall|i: int| pos < i < q.len() implies rank(#[trigger] q[i]) > rank(kind) by {
        assert(q[i] == p[i - 1]);
        if pos < i - 1 {
            assert(rank(p[pos]) <= rank(p[i - 1]));
        }
    }
}

/// Priority ordering. When the surface on screen closes, the kind that takes
/// the screen is one of the best rank among those that waited, and it is the
/// one among them that has waited longest; the others keep their order. With
/// nothing waiting the screen is free.
pub proof fn lemma_close_serves_best(a: Arbiter)
    requires
        a.wf(),
    ensures
        a.pending.len() == 0 ==> a.close().current is None && a.close().pending.len() == 0,
        a.pending.len() > 0 ==> a.close().current == Some(a.pending[0]) && a.close().pending
            == a.pending.drop_first(),
        forall|i: int|
            0 <= i < a.pending.len() ==> rank(a.close().current->0) <= rank(#[trigger] a.pending[i]),
        forall|kind: PopupType|
            a.close().current != Some(kind) ==> (a.close().pending.contains(kind)
                <==> a.pending.contains(kind)),
{
    if a.pending.len() > 0 {
        let p = a.pending;
        let q = p.drop_first();
        assert forall|kind: PopupType| Some(p[0]) != Some(kind) implies (q.contains(kind)
            <==> p.contains(kind)) by {
            if q.contains(kind) {
                let i = choose|i: int| 0 <= i < q.len() && q[i] == kind;
                assert(p[i + 1] == kind);
            }
            if p.contains(kind) {
                let i = choose|i: int| 0 <= i < p.len() && p[i] == kind;
                assert(i > 0);
                assert(q[i - 1] == kind);
            }
        }
    }
}

/// The kind on screen is never outranked by a kind that waits, and nothing
/// waits while the screen is free.
pub proof fn lemma_screen_holds_best(a: Arbiter, kind: PopupType)
    requires
        a.wf(),
        a.pending.contains(kind),
    ensures
        a.current is Some,
        rank(a.current->0) <= rank(kind),
{
    let i = choose|i: int| 0 <= i < a.pending.len() && a.pending[i] == kind;
    assert(rank(a.current->0) <= rank(a.pending[i]));
}

} // verus!
