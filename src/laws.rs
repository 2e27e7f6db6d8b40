use vstd::prelude::*;

use crate::pool::{
    begin_spec, created_spec, decide_spec, rejected_spec, recycled_spec, release_spec, take_spec,
    Action, ObjectState, PoolView, Taken,
};

verus! {

/// The cap holds in every well-formed state, and every step of an
/// acquisition or a release, taken under its preconditions, leads to a
/// well-formed state again: `size` never exceeds `max_size`.
pub proof fn lemma_capacity_cap<T>(v: PoolView<T>, state: ObjectState, obj: Option<T>)
    requires
        v.wf(),
    ensures
        v.size <= v.max_size,
        v.waiting < isize::MAX ==> begin_spec(v).0.wf(),
        v.waiting > 0 ==> decide_spec(v).0.wf(),
        v.waiting > 0 ==> take_spec(v).0.wf(),
        v.creating > 0 ==> created_spec(v).wf(),
        v.recycling > 0 ==> recycled_spec(v).wf(),
        v.recycling > 0 && v.waiting < isize::MAX ==> rejected_spec(v).0.wf(),
        v.count(state) > 0 && (state == ObjectState::Ready ==> obj is Some) ==> release_spec(
            v,
            state,
            obj,
        ).wf(),
{
}

/// A resource handed to a waiter leaves the queue: the slot it came from is
/// gone, and everything behind it stays in order. No resource is thereby
/// in the queue and with a caller at once.
pub proof fn lemma_take_moves<T>(v: PoolView<T>)
    requires
        v.wf(),
        v.waiting > 0,
        take_spec(v).1 is Resource,
    ensures
        v.queue == seq![Some(take_spec(v).1->Resource_0)] + take_spec(v).0.queue,
        take_spec(v).0.recycling == v.recycling + 1,
{
    assert(v.queue =~= seq![Some(take_spec(v).1->Resource_0)] + take_spec(v).0.queue);
}

/// At quiescence, with no acquisition in flight, every resource the pool
/// counts is either held by a caller or in the queue, and `available` is the
/// length of the queue, never negative.
pub proof fn lemma_conservation<T>(v: PoolView<T>)
    requires
        v.wf(),
        v.waiting == 0,
        v.creating == 0,
        v.recycling == 0,
    ensures
        v.size == v.ready + v.queue.len(),
        v.available == v.queue.len(),
        v.available >= 0,
{
}

/// Resources are handed out in the order they were returned: when `a` and
/// then `b` are returned to an empty queue, the next waiter gets `a` and the
/// one after it gets `b`.
pub proof fn lemma_fifo<T>(v: PoolView<T>, a: T, b: T)
    requires
        v.wf(),
        v.queue.len() == 0,
        v.ready >= 2,
        v.waiting >= 2,
    ensures
        ({
            let w = release_spec(release_spec(v, ObjectState::Ready, Some(a)), ObjectState::Ready, Some(b));
            &&& take_spec(w).1 == Taken::<T>::Resource(a)
            &&& take_spec(take_spec(w).0).1 == Taken::<T>::Resource(b)
        }),
{
    let w1 = release_spec(v, ObjectState::Ready, Some(a));
    let w = release_spec(w1, ObjectState::Ready, Some(b));
    assert(w.queue =~= seq![Some(a), Some(b)]);
    assert(take_spec(w).0.queue =~= seq![Some(b)]);
}

/// A failed `create` leaves no trace: starting an acquisition on a pool with
/// nothing queued and room under the cap reserves a creation slot, and
/// releasing that slot restores both counters.
pub proof fn lemma_failed_create_restores<T>(v: PoolView<T>)
    requires
        v.wf(),
        v.waiting < isize::MAX,
        v.queue.len() == 0,
        v.size < v.max_size,
    ensures
        begin_spec(v).1 == Action::Create,
        release_spec(begin_spec(v).0, ObjectState::Creating, None).size == v.size,
        release_spec(begin_spec(v).0, ObjectState::Creating, None).available == v.available,
{
}

} // verus!
