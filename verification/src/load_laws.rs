//! The ordering guarantees of the load serializer, proved over whole
//! histories of operations.
//!
//! A history is a sequence of [`LoaderEvent`]s applied to a serializer
//! state: enqueues, flush attempts, and terminal load events. The
//! lemmas here show the two guarantees the serializer exists for:
//! at most one navigation is ever in flight, and requests dispatch in
//! exactly their enqueue order.

use vstd::prelude::*;
use crate::load_serializer::{
    SerializerModel, ReqModel, idle_empty, flush_state, flush_dispatch, finished_state,
    finished_dispatch,
};

verus! {

/// One operation applied to a load serializer.
pub enum LoaderEvent {
    /// A request is appended to the queue.
    Push(ReqModel),
    /// A drain attempt (made after every push, and by completions).
    Flush,
    /// The terminal load event of the active navigation fires.
    LoadFinished,
}

/// The serializer state after one event.
pub open spec fn step_state(s: SerializerModel, e: LoaderEvent) -> SerializerModel {
    match e {
        LoaderEvent::Push(r) => (SerializerModel { locked: s.locked, queue: s.queue.push(r) }),
        LoaderEvent::Flush => flush_state(s),
        LoaderEvent::LoadFinished => finished_state(s),
    }
}

/// The request one event causes to be dispatched to the engine, if any.
pub open spec fn step_dispatch(s: SerializerModel, e: LoaderEvent) -> Option<ReqModel> {
    match e {
        LoaderEvent::Push(_) => None,
        LoaderEvent::Flush => flush_dispatch(s),
        LoaderEvent::LoadFinished => finished_dispatch(s),
    }
}

/// The serializer state after a whole history of events.
pub open spec fn run(s: SerializerModel, events: Seq<LoaderEvent>) -> SerializerModel
    decreases events.len(),
{
    if events.len() == 0 {
        s
    } else {
        run(step_state(s, events[0]), events.drop_first())
    }
}

/// All requests a history dispatches, in dispatch order.
pub open spec fn dispatched(s: SerializerModel, events: Seq<LoaderEvent>) -> Seq<ReqModel>
    decreases events.len(),
{
    if events.len() == 0 {
        Seq::empty()
    } else {
        (match step_dispatch(s, events[0]) {
            Some(r) => seq![r],
            None => Seq::empty(),
        }) + dispatched(step_state(s, events[0]), events.drop_first())
    }
}

/// All requests a history enqueues, in enqueue order.
pub open spec fn pushed(events: Seq<LoaderEvent>) -> Seq<ReqModel>
    decreases events.len(),
{
    if events.len() == 0 {
        Seq::empty()
    } else {
        (match events[0] {
            LoaderEvent::Push(r) => seq![r],
            _ => Seq::empty(),
        }) + pushed(events.drop_first())
    }
}

/// How many terminal load events a history contains.
pub open spec fn finished_count(events: Seq<LoaderEvent>) -> int
    decreases events.len(),
{
    if events.len() == 0 {
        0
    } else {
        (if events[0] is LoadFinished {
            1int
        } else {
            0
        }) + finished_count(events.drop_first())
    }
}

/// A history is well formed when every terminal load event arrives
/// while a navigation is active: the engine emits exactly one terminal
/// event per dispatched navigation.
pub open spec fn finishes_valid(s: SerializerModel, events: Seq<LoaderEvent>) -> bool
    decreases events.len(),
{
    events.len() == 0 || {
        &&& (events[0] is LoadFinished ==> s.locked)
        &&& finishes_valid(step_state(s, events[0]), events.drop_first())
    }
}

/// How many navigations are in flight in a state: the lock is held
/// exactly while one is.
pub open spec fn in_flight(s: SerializerModel) -> int {
    if s.locked {
        1
    } else {
        0
    }
}

/// Conservation: over any history, the requests a serializer dispatches
/// followed by those still queued are exactly the requests it started
/// with followed by those enqueued, in order. Nothing is reordered,
/// duplicated or lost.
pub proof fn lemma_queue_conservation(s: SerializerModel, events: Seq<LoaderEvent>)
    ensures
        dispatched(s, events) + run(s, events).queue == s.queue + pushed(events),
    decreases events.len(),
{
    if events.len() == 0 {
        assert(dispatched(s, events) + run(s, events).queue =~= s.queue + pushed(events));
    } else {
        let e = events[0];
        let s1 = step_state(s, e);
        let tail = events.drop_first();
        lemma_queue_conservation(s1, tail);
        match e {
            LoaderEvent::Push(r) => {
                assert(s1.queue + pushed(tail) =~= s.queue + pushed(events));
                assert(dispatched(s, events) + run(s, events).queue =~= dispatched(s1, tail)
                    + run(s1, tail).queue);
            },
            LoaderEvent::Flush => {
                if s.locked || s.queue.len() == 0 {
                    assert(dispatched(s, events) + run(s, events).queue =~= dispatched(s1, tail)
                        + run(s1, tail).queue);
                    assert(s1.queue + pushed(tail) =~= s.queue + pushed(events));
                } else {
                    assert(dispatched(s, events) + run(s, events).queue =~= seq![s.queue[0]]
                        + (dispatched(s1, tail) + run(s1, tail).queue));
                    assert(seq![s.queue[0]] + (s1.queue + pushed(tail)) =~= s.queue + pushed(
                        events,
                    ));
                }
            },
            LoaderEvent::LoadFinished => {
                let u = SerializerModel { locked: false, queue: s.queue };
                if u.queue.len() == 0 {
                    assert(dispatched(s, events) + run(s, events).queue =~= dispatched(s1, tail)
                        + run(s1, tail).queue);
                    assert(s1.queue + pushed(tail) =~= s.queue + pushed(events));
                } else {
                    assert(dispatched(s, events) + run(s, events).queue =~= seq![s.queue[0]]
                        + (dispatched(s1, tail) + run(s1, tail).queue));
                    assert(seq![s.queue[0]] + (s1.queue + pushed(tail)) =~= s.queue + pushed(
                        events,
                    ));
                }
            },
        }
    }
}

/// FIFO dispatch order: starting from a fresh serializer, the sequence
/// of dispatched requests is exactly the first dispatched-many enqueued
/// requests, in enqueue order.
pub proof fn lemma_fifo_order(events: Seq<LoaderEvent>)
    ensures
        ({
            let d = dispatched(idle_empty(), events);
            d == pushed(events).take(d.len() as int)
        }),
{
    lemma_queue_conservation(idle_empty(), events);
    let d = dispatched(idle_empty(), events);
    let q = run(idle_empty(), events).queue;
    let p = pushed(events);
    assert(d + q =~= p);
    assert(d =~= p.take(d.len() as int));
}

/// A well-formed history stays well formed when cut short.
proof fn lemma_finishes_valid_prefix(s: SerializerModel, events: Seq<LoaderEvent>, i: int)
    requires
        finishes_valid(s, events),
        0 <= i <= events.len(),
    ensures
        finishes_valid(s, events.take(i)),
    decreases i,
{
    if i > 0 {
        let e = events[0];
        let s1 = step_state(s, e);
        assert(events.take(i)[0] == e);
        assert(events.take(i).drop_first() =~= events.drop_first().take(i - 1));
        lemma_finishes_valid_prefix(s1, events.drop_first(), i - 1);
    }
}

/// Over a well-formed history, dispatches minus completions equals the
/// change in the number of in-flight navigations.
proof fn lemma_flight_balance(s: SerializerModel, events: Seq<LoaderEvent>)
    requires
        finishes_valid(s, events),
    ensures
        dispatched(s, events).len() - finished_count(events) == in_flight(run(s, events))
            - in_flight(s),
    decreases events.len(),
{
    if events.len() > 0 {
        let e = events[0];
        let s1 = step_state(s, e);
        lemma_flight_balance(s1, events.drop_first());
    }
}

/// Single-flight invariant: over any well-formed history of a fresh
/// serializer, at every point the number of dispatches never exceeds the
/// number of completions by more than one — at most one navigation is in
/// flight at any instant.
pub proof fn lemma_single_flight(events: Seq<LoaderEvent>)
    requires
        finishes_valid(idle_empty(), events),
    ensures
        forall|i: int|
            0 <= i <= events.len() ==> {
                let p = #[trigger] events.take(i);
                0 <= dispatched(idle_empty(), p).len() - finished_count(p) <= 1
            },
{
    assert forall|i: int| 0 <= i <= events.len() implies {
        let p = #[trigger] events.take(i);
        0 <= dispatched(idle_empty(), p).len() - finished_count(p) <= 1
    } by {
        lemma_finishes_valid_prefix(idle_empty(), events, i);
        lemma_flight_balance(idle_empty(), events.take(i));
    }
}

/// Idempotent flush: any number of flushes of an idle serializer with an
/// empty queue dispatch nothing and leave the state untouched.
pub proof fn lemma_flush_idempotent(s: SerializerModel, n: nat)
    requires
        !s.locked,
        s.queue.len() == 0,
    ensures
        run(s, Seq::new(n, |i: int| LoaderEvent::Flush)) == s,
        dispatched(s, Seq::new(n, |i: int| LoaderEvent::Flush)) == Seq::<ReqModel>::empty(),
    decreases n,
{
    let events = Seq::new(n, |i: int| LoaderEvent::Flush);
    if n > 0 {
        assert(step_state(s, events[0]) == s);
        assert(events.drop_first() =~= Seq::new((n - 1) as nat, |i: int| LoaderEvent::Flush));
        lemma_flush_idempotent(s, (n - 1) as nat);
        assert(dispatched(s, events) =~= Seq::<ReqModel>::empty());
    } else {
        assert(dispatched(s, events) =~= Seq::<ReqModel>::empty());
    }
}

/// Drain on completion: when the terminal load event of the active
/// navigation fires while requests are pending, the head of the queue
/// dispatches by itself — no further flush call is needed — and the
/// serializer stays active for it; with nothing pending the serializer
/// returns to idle.
pub proof fn lemma_drain_on_completion(s: SerializerModel)
    requires
        s.locked,
    ensures
        s.queue.len() > 0 ==> finished_dispatch(s) == Some(s.queue[0]) && finished_state(s)
            == (SerializerModel { locked: true, queue: s.queue.drop_first() }),
        s.queue.len() == 0 ==> finished_dispatch(s) is None && finished_state(s) == idle_empty(),
{
    if s.queue.len() == 0 {
        assert(finished_state(s).queue =~= idle_empty().queue);
    }
}

} // verus!
