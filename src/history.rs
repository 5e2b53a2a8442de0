//! Runs of hook calls, and what the tracer holds after them.
//!
//! A run is a sequence of tracer states, each obtained from the previous one
//! by one hook operation. The laws here say which addresses the tracer holds
//! at the end of a run, in terms of the operations alone.
use crate::tracer::LeakTracer;
use vstd::prelude::*;

verus! {

/// One operation on the tracer.
pub ghost enum HookEvent {
    /// An allocation answered with `ptr` (zero on failure).
    Alloc { ptr: usize, size: usize },
    /// A release of `ptr`.
    Dealloc { ptr: usize },
    /// A reallocation of `old_ptr` answered with `new_ptr` (zero on failure).
    Realloc { old_ptr: usize, new_ptr: usize, new_size: usize },
    Enable,
    Disable,
}

/// The event hands out address `a`.
pub open spec fn adds(e: HookEvent, a: usize) -> bool {
    match e {
        HookEvent::Alloc { ptr, .. } => ptr == a && ptr != 0,
        HookEvent::Realloc { old_ptr, new_ptr, .. } => new_ptr == a && new_ptr != 0 && new_ptr != old_ptr,
        _ => false,
    }
}

/// The event gives address `a` back.
pub open spec fn frees(e: HookEvent, a: usize) -> bool {
    match e {
        HookEvent::Dealloc { ptr } => ptr == a,
        HookEvent::Realloc { old_ptr, new_ptr, .. } => old_ptr == a && new_ptr != 0 && new_ptr != old_ptr,
        _ => false,
    }
}

/// The enabled flag after the event.
pub open spec fn flag_step(on: bool, e: HookEvent) -> bool {
    match e {
        HookEvent::Enable => true,
        HookEvent::Disable => false,
        _ => on,
    }
}

/// The tracked addresses after the event.
pub open spec fn keys_step(keys: Set<usize>, on: bool, e: HookEvent) -> Set<usize> {
    if !on {
        keys
    } else {
        match e {
            HookEvent::Alloc { ptr, .. } => if ptr != 0 { keys.insert(ptr) } else { keys },
            HookEvent::Dealloc { ptr } => keys.remove(ptr),
            HookEvent::Realloc { old_ptr, new_ptr, .. } => if new_ptr != 0 && new_ptr != old_ptr {
                keys.remove(old_ptr).insert(new_ptr)
            } else {
                keys
            },
            _ => keys,
        }
    }
}

/// `after` is what the operation `e` makes of `before`, as far as the
/// flag and the tracked addresses go.
pub open spec fn steps_as<const K: usize>(before: LeakTracer<K>, after: LeakTracer<K>, e: HookEvent) -> bool {
    &&& after.is_on() == flag_step(before.is_on(), e)
    &&& after.entries().dom() == keys_step(before.entries().dom(), before.is_on(), e)
}

/// Whether tracking is on just before the `i`-th event.
pub open spec fn enabled_before(events: Seq<HookEvent>, on0: bool, i: int) -> bool
    decreases i,
{
    if i <= 0 {
        on0
    } else {
        flag_step(enabled_before(events, on0, i - 1), events[i - 1])
    }
}

/// The addresses handed out while tracking was on, among the first `n`
/// events, and not given back since.
pub open spec fn live_upto(events: Seq<HookEvent>, on0: bool, n: int) -> Set<usize> {
    Set::new(
        |a: usize|
            exists|i: int|
                0 <= i < n && enabled_before(events, on0, i) && #[trigger] adds(events[i], a) && forall|
                    j: int,
                |
                    i < j < n ==> !#[trigger] frees(events[j], a),
    )
}

/// No address that is being tracked is given back while tracking is off.
pub open spec fn frees_tracked_only_while_on(events: Seq<HookEvent>, on0: bool) -> bool {
    forall|j: int, a: usize|
        0 <= j < events.len() && !enabled_before(events, on0, j) && #[trigger] frees(events[j], a)
            ==> !live_upto(events, on0, j).contains(a)
}

/// `run` is a run of the tracer driven by `events`.
pub open spec fn is_run<const K: usize>(run: Seq<LeakTracer<K>>, events: Seq<HookEvent>) -> bool {
    &&& run.len() == events.len() + 1
    &&& forall|i: int| 0 <= i < events.len() ==> steps_as(#[trigger] run[i], run[i + 1], events[i])
}

proof fn lemma_run_prefix<const K: usize>(run: Seq<LeakTracer<K>>, events: Seq<HookEvent>, n: int)
    requires
        is_run(run, events),
        run[0].entries().dom() == Set::<usize>::empty(),
        frees_tracked_only_while_on(events, run[0].is_on()),
        0 <= n <= events.len(),
    ensures
        run[n].is_on() == enabled_before(events, run[0].is_on(), n),
        run[n].entries().dom() == live_upto(events, run[0].is_on(), n),
    decreases n,
{
    let on0 = run[0].is_on();
    if n == 0 {
        assert(live_upto(events, on0, 0) =~= Set::<usize>::empty());
    } else {
        let m = n - 1;
        lemma_run_prefix(run, events, m);
        assert(steps_as(run[m], run[m + 1], events[m]));
        let e = events[m];
        let on = enabled_before(events, on0, m);
        let s = live_upto(events, on0, m);
        let t = live_upto(events, on0, n);
        assert forall|a: usize| t.contains(a) == keys_step(s, on, e).contains(a) by {
            if t.contains(a) {
                let i = choose|i: int|
                    0 <= i < n && enabled_before(events, on0, i) && #[trigger] adds(events[i], a) && forall|
                        j: int,
                    |
                        i < j < n ==> !#[trigger] frees(events[j], a);
                if i < m {
                    assert(!frees(events[m], a));
                    assert(s.contains(a));
                }
            } else {
                if keys_step(s, on, e).contains(a) {
                    if s.contains(a) && !frees(e, a) {
                        let i = choose|i: int|
                            0 <= i < m && enabled_before(events, on0, i) && #[trigger] adds(events[i], a)
                                && forall|j: int| i < j < m ==> !#[trigger] frees(events[j], a);
                        assert forall|j: int| i < j < n implies !#[trigger] frees(events[j], a) by {
                            if j < m {
                            }
                        }
                        assert(t.contains(a));
                    } else if s.contains(a) && frees(e, a) && !on {
                        assert(!s.contains(a));
                    } else {
                        assert(adds(e, a) && on);
                        assert(t.contains(a));
                    }
                }
            }
        }
        assert(t =~= keys_step(s, on, e));
    }
}

/// Liveness correspondence: starting from an empty tracer, the addresses
/// held at the end of a run are exactly those handed out while tracking was
/// on and not given back since. This needs every release of a tracked
/// address to happen while tracking is on: a release while tracking is off
/// leaves its record in place.
pub proof fn lemma_liveness_correspondence<const K: usize>(run: Seq<LeakTracer<K>>, events: Seq<HookEvent>)
    requires
        is_run(run, events),
        run[0].entries().dom() == Set::<usize>::empty(),
        frees_tracked_only_while_on(events, run[0].is_on()),
    ensures
        run.last().entries().dom() == live_upto(events, run[0].is_on(), events.len() as int),
{
    lemma_run_prefix(run, events, events.len() as int);
}

/// The allocator never hands out an address that it still counts as live:
/// each address handed out is not among those handed out earlier and not
/// given back since.
pub open spec fn hands_out_fresh(events: Seq<HookEvent>, on0: bool) -> bool {
    forall|i: int, a: usize|
        0 <= i < events.len() && #[trigger] adds(events[i], a) ==> !live_upto(events, on0, i).contains(a)
}

/// No duplicate keys: starting from an empty tracer, when the allocator
/// never hands out a live address, no operation of the run stores a record
/// under an address that already has one.
pub proof fn lemma_no_duplicate_insert<const K: usize>(run: Seq<LeakTracer<K>>, events: Seq<HookEvent>)
    requires
        is_run(run, events),
        run[0].entries().dom() == Set::<usize>::empty(),
        frees_tracked_only_while_on(events, run[0].is_on()),
        hands_out_fresh(events, run[0].is_on()),
    ensures
        forall|i: int, a: usize|
            0 <= i < events.len() && #[trigger] adds(events[i], a) ==> !run[i].entries().contains_key(a),
{
    assert forall|i: int, a: usize|
        0 <= i < events.len() && #[trigger] adds(events[i], a) implies !run[i].entries().contains_key(a) by {
        lemma_run_prefix(run, events, i);
    }
}

proof fn lemma_disabled_prefix<const K: usize>(run: Seq<LeakTracer<K>>, events: Seq<HookEvent>, n: int)
    requires
        is_run(run, events),
        events.len() >= 2,
        events[0] == HookEvent::Disable,
        forall|i: int| 0 < i < events.len() - 1 ==> events[i] != HookEvent::Enable,
        1 <= n <= events.len() - 1,
    ensures
        !run[n].is_on(),
        run[n].entries().dom().subset_of(run[0].entries().dom()),
    decreases n,
{
    if n > 1 {
        lemma_disabled_prefix(run, events, n - 1);
    }
    assert(steps_as(run[n - 1], run[n], events[n - 1]));
}

/// Disabling is immediate and local: in a run that starts with `disable`,
/// ends with `enable` and enables nowhere in between, the tracer ends enabled
/// and holds no address it did not hold at the start.
pub proof fn lemma_disabled_span<const K: usize>(run: Seq<LeakTracer<K>>, events: Seq<HookEvent>)
    requires
        is_run(run, events),
        events.len() >= 2,
        events[0] == HookEvent::Disable,
        events.last() == HookEvent::Enable,
        forall|i: int| 0 < i < events.len() - 1 ==> events[i] != HookEvent::Enable,
    ensures
        run.last().is_on(),
        run.last().entries().dom().subset_of(run[0].entries().dom()),
{
    let n = events.len() - 1;
    lemma_disabled_prefix(run, events, n);
    assert(steps_as(run[n], run[n + 1], events[n]));
}

} // verus!
