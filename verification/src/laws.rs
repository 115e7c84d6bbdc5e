use crate::spawn_state::{run, step, wakes, woke_at, SpawnEvent, SpawnView};
use vstd::prelude::*;

verus! {

/// Running one more event of a sequence is one more step.
proof fn lemma_run_step(v: SpawnView, es: Seq<SpawnEvent>, p: int)
    requires
        0 <= p < es.len(),
    ensures
        run(v, es.take(p + 1)) == step(run(v, es.take(p)), es[p]),
{
    assert(es.take(p + 1).drop_last() =~= es.take(p));
}

/// Once a polling task is recorded, no sequence of operations forgets it.
pub proof fn law_registration_persists(v: SpawnView, es: Seq<SpawnEvent>)
    requires
        v.registered || es.contains(SpawnEvent::Poll),
    ensures
        run(v, es).registered,
    decreases es.len(),
{
    if es.len() > 0 {
        let prefix = es.drop_last();
        if v.registered || prefix.contains(SpawnEvent::Poll) {
            law_registration_persists(v, prefix);
        } else {
            let k = choose|k: int| 0 <= k < es.len() && es[k] == SpawnEvent::Poll;
            if k < es.len() - 1 {
                assert(prefix[k] == SpawnEvent::Poll);
            }
        }
    }
}

/// Between a push at `i` and a later position `p` with no poll in between,
/// either the task was handed back to be woken or the push is still marked
/// as unannounced.
proof fn lemma_push_pending(v: SpawnView, es: Seq<SpawnEvent>, i: int, p: int)
    requires
        0 <= i < p <= es.len(),
        es[i] is Push,
        run(v, es.take(i)).registered,
        forall|l: int| i < l < p ==> !(es[l] is Poll),
    ensures
        (exists|k: int| i < k < p && woke_at(v, es, k)) || (run(v, es.take(p)).registered
            && run(v, es.take(p)).needs_notify),
    decreases p - i,
{
    if p == i + 1 {
        lemma_run_step(v, es, i);
    } else {
        lemma_push_pending(v, es, i, p - 1);
        lemma_run_step(v, es, p - 1);
        if exists|k: int| i < k < p - 1 && woke_at(v, es, k) {
            let k = choose|k: int| i < k < p - 1 && woke_at(v, es, k);
            assert(i < k < p && woke_at(v, es, k));
        } else if woke_at(v, es, p - 1) {
            assert(i < p - 1 < p && woke_at(v, es, p - 1));
        }
    }
}

/// No lost wakeup: when a future is pushed while a polling task is
/// recorded, that task is handed back to be woken no later than by the next
/// `notify_if_needed`, unless the task polls the spawned futures in between.
pub proof fn law_no_lost_wakeup(v: SpawnView, es: Seq<SpawnEvent>, i: int, j: int)
    requires
        0 <= i < j < es.len(),
        es[i] is Push || es[i] is Spawn,
        es[j] is NotifyIfNeeded,
        run(v, es.take(i)).registered,
        forall|l: int| i < l < j ==> !(es[l] is Poll),
    ensures
        exists|k: int| i <= k <= j && woke_at(v, es, k),
{
    if es[i] is Spawn {
        assert(woke_at(v, es, i));
    } else {
        lemma_push_pending(v, es, i, j);
        if exists|k: int| i < k < j && woke_at(v, es, k) {
            let k = choose|k: int| i < k < j && woke_at(v, es, k);
            assert(i <= k <= j && woke_at(v, es, k));
        } else {
            assert(woke_at(v, es, j));
        }
    }
}

/// After a task was handed back to be woken, or a poll, nothing is left to
/// announce until a future is pushed again.
proof fn lemma_quiet(v: SpawnView, es: Seq<SpawnEvent>, k: int, p: int)
    requires
        0 <= k < p <= es.len(),
        woke_at(v, es, k) || es[k] is Poll,
        forall|l: int| k < l < p ==> !(es[l] is Push) && !(es[l] is Spawn),
    ensures
        !run(v, es.take(p)).needs_notify,
    decreases p - k,
{
    if p == k + 1 {
        lemma_run_step(v, es, k);
    } else {
        lemma_quiet(v, es, k, p - 1);
        lemma_run_step(v, es, p - 1);
    }
}

/// No redundant wakeup: once the task was handed back to be woken, or has
/// polled, a later `notify_if_needed` hands back nothing unless a future was
/// pushed in between.
pub proof fn law_no_redundant_wakeup(v: SpawnView, es: Seq<SpawnEvent>, k: int, m: int)
    requires
        0 <= k < m < es.len(),
        woke_at(v, es, k) || es[k] is Poll,
        es[m] is NotifyIfNeeded,
        forall|l: int| k < l < m ==> !(es[l] is Push) && !(es[l] is Spawn),
    ensures
        !woke_at(v, es, m),
{
    lemma_quiet(v, es, k, m);
}

/// Before the first poll there is no task to wake, so no operation hands one
/// back.
pub proof fn law_silent_before_first_poll(v: SpawnView, es: Seq<SpawnEvent>, k: int)
    requires
        !v.registered,
        0 <= k < es.len(),
        forall|l: int| 0 <= l < k ==> !(es[l] is Poll),
    ensures
        !woke_at(v, es, k),
        !run(v, es.take(k)).registered,
    decreases k,
{
    if k > 0 {
        law_silent_before_first_poll(v, es, k - 1);
        lemma_run_step(v, es, k - 1);
    }
}

/// The event at `k` leaves a pushed future unannounced: a push, or a spawn
/// that found no task to hand back.
pub open spec fn marks_pending(v: SpawnView, es: Seq<SpawnEvent>, k: int) -> bool {
    es[k] is Push || (es[k] is Spawn && !woke_at(v, es, k))
}

/// The event at `k` leaves nothing unannounced: a poll, or any event that
/// hands back the task to wake.
pub open spec fn clears_pending(v: SpawnView, es: Seq<SpawnEvent>, k: int) -> bool {
    es[k] is Poll || woke_at(v, es, k)
}

/// A future was pushed at `i` and nothing after it, up to the end of `es`,
/// announced it.
pub open spec fn unannounced_since(v: SpawnView, es: Seq<SpawnEvent>, i: int) -> bool {
    &&& 0 <= i < es.len()
    &&& marks_pending(v, es, i)
    &&& forall|k: int| i < k < es.len() ==> !clears_pending(v, es, k)
}

/// Nothing in `es` announced or polled anything.
pub open spec fn never_cleared(v: SpawnView, es: Seq<SpawnEvent>) -> bool {
    forall|k: int| 0 <= k < es.len() ==> !clears_pending(v, es, k)
}

/// Events of a prefix hand back tasks as they do in the whole sequence.
proof fn lemma_prefix_woke(v: SpawnView, es: Seq<SpawnEvent>, k: int)
    requires
        0 <= k < es.len() - 1,
    ensures
        woke_at(v, es.drop_last(), k) == woke_at(v, es, k),
        es.drop_last()[k] == es[k],
{
    assert(es.drop_last().take(k) =~= es.take(k));
}

/// The last event of a non-empty sequence is one step after its prefix.
proof fn lemma_last_step(v: SpawnView, es: Seq<SpawnEvent>)
    requires
        es.len() > 0,
    ensures
        run(v, es) == step(run(v, es.drop_last()), es[es.len() - 1]),
        woke_at(v, es, es.len() - 1) == wakes(run(v, es.drop_last()), es[es.len() - 1]),
{
    assert(es.take(es.len() - 1) =~= es.drop_last());
}

/// When the last event clears the mark, nothing is unannounced.
proof fn lemma_cleared_last(v: SpawnView, es: Seq<SpawnEvent>)
    requires
        es.len() > 0,
        clears_pending(v, es, es.len() - 1),
    ensures
        !run(v, es).needs_notify,
        !never_cleared(v, es),
        forall|i: int| !unannounced_since(v, es, i),
{
    lemma_last_step(v, es);
    let n = es.len() - 1;
    assert forall|i: int| !unannounced_since(v, es, i) by {
        if 0 <= i < n {
            assert(clears_pending(v, es, n));
        }
    }
}

/// When the last event neither marks nor clears, the prefix decides
/// everything.
proof fn lemma_quiet_last(v: SpawnView, es: Seq<SpawnEvent>)
    requires
        es.len() > 0,
        !clears_pending(v, es, es.len() - 1),
        !marks_pending(v, es, es.len() - 1),
    ensures
        run(v, es).needs_notify == run(v, es.drop_last()).needs_notify,
        never_cleared(v, es) == never_cleared(v, es.drop_last()),
        forall|i: int| 0 <= i < es.len() - 1 ==> (unannounced_since(v, es, i)
            == unannounced_since(v, es.drop_last(), i)),
        !unannounced_since(v, es, es.len() - 1),
{
    lemma_last_step(v, es);
    let n = es.len() - 1;
    let prefix = es.drop_last();
    assert forall|k: int| 0 <= k < n implies clears_pending(v, prefix, k) == clears_pending(
        v,
        es,
        k,
    ) && marks_pending(v, prefix, k) == marks_pending(v, es, k) by {
        lemma_prefix_woke(v, es, k);
    }
    assert forall|i: int| 0 <= i < n implies (unannounced_since(v, es, i) == unannounced_since(
        v,
        prefix,
        i,
    )) by {
        if unannounced_since(v, prefix, i) {
            assert forall|k: int| i < k < es.len() implies !clears_pending(v, es, k) by {
                if k < n {
                    assert(!clears_pending(v, prefix, k));
                }
            }
        }
        if unannounced_since(v, es, i) {
            assert forall|k: int| i < k < prefix.len() implies !clears_pending(v, prefix, k) by {
                assert(!clears_pending(v, es, k));
            }
        }
    }
    if never_cleared(v, prefix) {
        assert forall|k: int| 0 <= k < es.len() implies !clears_pending(v, es, k) by {
            if k < n {
                assert(!clears_pending(v, prefix, k));
            }
        }
    }
    if never_cleared(v, es) {
        assert forall|k: int| 0 <= k < prefix.len() implies !clears_pending(v, prefix, k) by {
            assert(!clears_pending(v, es, k));
        }
    }
}

/// The pending mark is exact: after any sequence of operations a future is
/// marked as unannounced exactly when a push (or a spawn that found no task)
/// came after the last poll and after the last operation that handed back the
/// task to wake, or, with nothing announced or polled at all, when one was
/// marked from the start.
pub proof fn law_pending_exact(v: SpawnView, es: Seq<SpawnEvent>)
    ensures
        run(v, es).needs_notify <==> ((exists|i: int| unannounced_since(v, es, i)) || (
        v.needs_notify && never_cleared(v, es))),
    decreases es.len(),
{
    if es.len() > 0 {
        let n = es.len() - 1;
        if clears_pending(v, es, n) {
            lemma_cleared_last(v, es);
        } else if marks_pending(v, es, n) {
            lemma_last_step(v, es);
            assert(unannounced_since(v, es, n));
        } else {
            law_pending_exact(v, es.drop_last());
            lemma_quiet_last(v, es);
            if exists|i: int| unannounced_since(v, es.drop_last(), i) {
                let i = choose|i: int| unannounced_since(v, es.drop_last(), i);
                assert(unannounced_since(v, es, i));
            }
            if exists|i: int| unannounced_since(v, es, i) {
                let i = choose|i: int| unannounced_since(v, es, i);
                assert(unannounced_since(v, es.drop_last(), i));
            }
        }
    } else {
        assert(never_cleared(v, es));
    }
}

} // verus!
