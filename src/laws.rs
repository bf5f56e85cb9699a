//! What holds of every sequence of clones and drops of a shared pool.
use vstd::prelude::*;

use crate::pool::{cloned, created, dropped, model_wf, PoolModel};

verus! {

/// Something that happens to one handle of a shared pool.
pub ghost enum HandleEvent {
    /// A live handle is cloned.
    Clone,
    /// A handle is dropped.
    Drop,
}

/// One event: the model afterwards and the native pool it destroys, if any.
/// A clone needs a live handle to be made from: with none, nothing happens.
pub open spec fn step(m: PoolModel, e: HandleEvent) -> (PoolModel, Option<usize>) {
    match e {
        HandleEvent::Clone => if m.shares == 0 { (m, None) } else { (cloned(m), None) },
        HandleEvent::Drop => dropped(m),
    }
}

/// The events in order: the final model and what each event destroyed.
pub open spec fn run(m: PoolModel, events: Seq<HandleEvent>) -> (PoolModel, Seq<Option<usize>>)
    decreases events.len(),
{
    if events.len() == 0 {
        (m, Seq::empty())
    } else {
        let (m1, a) = step(m, events[0]);
        let (m2, rest) = run(m1, events.subrange(1, events.len() as int));
        (m2, seq![a] + rest)
    }
}

/// `n` clones in a row.
pub open spec fn clone_times(m: PoolModel, n: nat) -> PoolModel
    decreases n,
{
    if n == 0 {
        m
    } else {
        cloned(clone_times(m, (n - 1) as nat))
    }
}

/// `k` drops in a row: the final model and what each drop destroyed.
pub open spec fn drop_times(m: PoolModel, k: nat) -> (PoolModel, Seq<Option<usize>>)
    decreases k,
{
    if k == 0 {
        (m, Seq::empty())
    } else {
        let (m1, a) = dropped(m);
        let (m2, rest) = drop_times(m1, (k - 1) as nat);
        (m2, seq![a] + rest)
    }
}

/// How many of the actions destroy a native pool.
pub open spec fn destroys(actions: Seq<Option<usize>>) -> nat
    decreases actions.len(),
{
    if actions.len() == 0 {
        0
    } else {
        (if actions[0] is Some { 1nat } else { 0nat }) + destroys(
            actions.subrange(1, actions.len() as int),
        )
    }
}

/// Clones only raise the count of live handles.
pub proof fn lemma_clone_times(m: PoolModel, n: nat)
    ensures
        clone_times(m, n) == (PoolModel { shares: m.shares + n, ..m }),
    decreases n,
{
    if n > 0 {
        lemma_clone_times(m, (n - 1) as nat);
    }
}

/// Drops that leave a live handle destroy nothing and only lower the count.
pub proof fn lemma_drops_keep_pool(m: PoolModel, k: nat)
    requires
        m.shares > k,
    ensures
        drop_times(m, k).0 == (PoolModel { shares: (m.shares - k) as nat, ..m }),
        drop_times(m, k).1.len() == k,
        forall|i: int| 0 <= i < k ==> drop_times(m, k).1[i] is None,
    decreases k,
{
    if k > 0 {
        let m1 = dropped(m).0;
        lemma_drops_keep_pool(m1, (k - 1) as nat);
        let rest = drop_times(m1, (k - 1) as nat).1;
        assert forall|i: int| 0 <= i < k implies drop_times(m, k).1[i] is None by {
            if i > 0 {
                assert((seq![None::<usize>] + rest)[i] == rest[i - 1]);
            }
        }
    }
}

/// Counting destroys over two runs of actions adds up.
proof fn lemma_destroys_append(a: Seq<Option<usize>>, b: Seq<Option<usize>>)
    ensures
        destroys(a + b) == destroys(a) + destroys(b),
    decreases a.len(),
{
    if a.len() == 0 {
        assert(a + b =~= b);
    } else {
        assert((a + b).subrange(1, (a + b).len() as int) =~= a.subrange(1, a.len() as int) + b);
        lemma_destroys_append(a.subrange(1, a.len() as int), b);
    }
}

/// No action destroys anything, so nothing is counted.
proof fn lemma_destroys_none(a: Seq<Option<usize>>)
    requires
        forall|i: int| 0 <= i < a.len() ==> a[i] is None,
    ensures
        destroys(a) == 0,
    decreases a.len(),
{
    if a.len() > 0 {
        lemma_destroys_none(a.subrange(1, a.len() as int));
    }
}

/// A pool created from the native handle `h` and cloned `n` times has
/// `n + 1` live handles that all hold `h`. Dropping them all destroys `h`
/// exactly once, at the last drop and not before; no handle is held after.
pub proof fn lemma_clones_destroy_once(n_threads: int, h: usize, n: nat)
    requires
        h != 0,
    ensures
        clone_times(created(n_threads, h), n).pool == Some(h),
        clone_times(created(n_threads, h), n).shares == n + 1,
        ({
            let (last, acts) = drop_times(clone_times(created(n_threads, h), n), n + 1);
            &&& acts.len() == n + 1
            &&& forall|i: int| 0 <= i < n ==> acts[i] is None
            &&& acts[n as int] == Some(h)
            &&& destroys(acts) == 1
            &&& last.pool is None
            &&& last.shares == 0
        }),
{
    let m = clone_times(created(n_threads, h), n);
    lemma_clone_times(created(n_threads, h), n);
    lemma_drops_keep_pool(m, n);
    let (mid, first) = drop_times(m, n);
    lemma_drop_times_split(m, n);
    let acts = drop_times(m, n + 1).1;
    assert(acts =~= first + seq![Some(h)]);
    lemma_destroys_none(first);
    lemma_destroys_append(first, seq![Some(h)]);
    assert(destroys(seq![Some(h)]) == 1) by {
        assert(seq![Some(h)].subrange(1, 1) =~= Seq::<Option<usize>>::empty());
        assert(destroys(Seq::<Option<usize>>::empty()) == 0);
    }
}

/// `k + 1` drops are `k` drops followed by one more.
proof fn lemma_drop_times_split(m: PoolModel, k: nat)
    ensures
        drop_times(m, k + 1).0 == dropped(drop_times(m, k).0).0,
        drop_times(m, k + 1).1 == drop_times(m, k).1 + seq![dropped(drop_times(m, k).0).1],
    decreases k,
{
    if k == 0 {
        let m1 = dropped(m).0;
        assert(drop_times(m1, 0) == (m1, Seq::<Option<usize>>::empty()));
        assert(drop_times(m, 1).1 =~= seq![dropped(m).1]);
    } else {
        let m1 = dropped(m).0;
        lemma_drop_times_split(m1, (k - 1) as nat);
        assert(drop_times(m, k + 1).1 =~= drop_times(m, k).1 + seq![
            dropped(drop_times(m, k).0).1,
        ]);
    }
}

/// Whatever happens to the handles of a well-formed pool, in whatever order,
/// at most one native pool is destroyed, and only the one the pool held; a
/// pool that holds none destroys nothing.
pub proof fn lemma_at_most_one_destroy(m: PoolModel, events: Seq<HandleEvent>)
    requires
        model_wf(m),
    ensures
        destroys(run(m, events).1) <= (if m.pool is Some { 1nat } else { 0nat }),
        forall|i: int|
            0 <= i < run(m, events).1.len() && run(m, events).1[i] is Some ==> run(m, events).1[i]
                == m.pool,
        run(m, events).1.len() == events.len(),
        model_wf(run(m, events).0),
    decreases events.len(),
{
    if events.len() > 0 {
        let (m1, a) = step(m, events[0]);
        let tail = events.subrange(1, events.len() as int);
        lemma_at_most_one_destroy(m1, tail);
        let (m2, rest) = run(m1, tail);
        let acts = seq![a] + rest;
        assert(acts.subrange(1, acts.len() as int) =~= rest);
        assert forall|i: int| 0 <= i < acts.len() && acts[i] is Some implies acts[i] == m.pool by {
            if i > 0 {
                assert(acts[i] == rest[i - 1]);
            }
        }
    }
}

/// Once the last handle has gone, dropping again finds no native pool:
/// nothing is destroyed a second time and nothing changes.
pub proof fn lemma_drop_after_last(m: PoolModel)
    requires
        model_wf(m),
        m.shares == 1,
    ensures
        dropped(m).1 == m.pool,
        dropped(dropped(m).0).1 is None,
        dropped(dropped(m).0).0 == dropped(m).0,
{
}

} // verus!
