//! The load serializer: a FIFO queue of pending navigation requests
//! guarded by a single-flight lock.
//!
//! The underlying browser engine allows only one navigation to be in
//! flight at a time per shared context; a second concurrent navigation
//! can misattribute response bodies between webviews. The serializer
//! therefore dispatches at most one request at a time, in strict
//! enqueue order, and releases the lock only when the engine signals the
//! terminal load event of the dispatched request.
//!
//! The serializer is a sequential state machine; the embedder owns the
//! synchronization around it (engine callbacks run on the single UI
//! thread, off-thread enqueues are handed over through a channel) and
//! performs the returned dispatch actions against the engine.

use vstd::prelude::*;
use std::collections::VecDeque;

verus! {

/// An opaque handle identifying the webview a navigation targets. The
/// embedder maps it to the engine's own webview object.
#[derive(Debug, Clone, Copy, PartialEq, Eq, Hash, Structural)]
pub struct WebviewHandle(pub u64);

/// One pending navigation: the webview to load into and the target URL.
/// Once enqueued a request is immutable; it is consumed exactly once,
/// when the serializer dispatches it.
#[derive(Debug)]
pub struct LoadRequest {
    /// The webview the navigation targets.
    pub webview: WebviewHandle,
    /// The serialization of the (already validated) absolute target URL.
    pub uri: String,
}

/// The mathematical value of a [`LoadRequest`].
pub struct ReqModel {
    pub webview: u64,
    pub uri: Seq<char>,
}

impl View for LoadRequest {
    type V = ReqModel;

    open spec fn view(&self) -> ReqModel {
        ReqModel { webview: self.webview.0, uri: self.uri@ }
    }
}

/// The mathematical value of a [`LoadSerializer`]: the single-flight
/// lock and the pending queue, head first.
pub struct SerializerModel {
    /// True while a dispatched navigation is awaiting its terminal load
    /// event.
    pub locked: bool,
    /// The pending requests, in enqueue order; never contains the active
    /// request.
    pub queue: Seq<ReqModel>,
}

/// The state of a serializer that has just been created: idle, nothing
/// pending.
pub open spec fn idle_empty() -> SerializerModel {
    SerializerModel { locked: false, queue: Seq::empty() }
}

/// The state after a flush: claiming the lock succeeds only when it is
/// free; with the lock claimed the head of the queue is removed for
/// dispatch, and an empty queue releases the lock again at once.
pub open spec fn flush_state(s: SerializerModel) -> SerializerModel {
    if s.locked || s.queue.len() == 0 {
        s
    } else {
        SerializerModel { locked: true, queue: s.queue.drop_first() }
    }
}

/// The request a flush dispatches: the head of the queue, exactly when
/// the lock was free and the queue non-empty.
pub open spec fn flush_dispatch(s: SerializerModel) -> Option<ReqModel> {
    if s.locked || s.queue.len() == 0 {
        None
    } else {
        Some(s.queue[0])
    }
}

/// The state after a terminal load event: the lock is released, then
/// the next pending request (if any) is drained as by a flush.
pub open spec fn finished_state(s: SerializerModel) -> SerializerModel {
    flush_state(SerializerModel { locked: false, queue: s.queue })
}

/// The request a terminal load event causes to be dispatched.
pub open spec fn finished_dispatch(s: SerializerModel) -> Option<ReqModel> {
    flush_dispatch(SerializerModel { locked: false, queue: s.queue })
}

/// Serializes navigations of all webviews sharing one context: requests
/// are queued FIFO and dispatched one at a time under a single-flight
/// lock.
#[derive(Debug)]
pub struct LoadSerializer {
    lock: bool,
    queue: VecDeque<LoadRequest>,
}

impl View for LoadSerializer {
    type V = SerializerModel;

    closed spec fn view(&self) -> SerializerModel {
        SerializerModel {
            locked: self.lock,
            queue: self.queue@.map_values(|r: LoadRequest| r@),
        }
    }
}

impl LoadSerializer {
    /// A fresh serializer: lock free, queue empty.
    pub fn new() -> (s: Self)
        ensures
            s@ == idle_empty(),
    {
        let s = LoadSerializer { lock: false, queue: VecDeque::new() };
        proof {
            assert(s@.queue =~= idle_empty().queue);
            assert(s@ =~= idle_empty());
        }
        s
    }

    /// Whether a dispatched navigation is currently awaiting its
    /// terminal load event.
    pub fn is_locked(&self) -> (r: bool)
        ensures
            r == self@.locked,
    {
        self.lock
    }

    /// How many requests are pending (not counting the active one).
    pub fn pending(&self) -> (n: usize)
        ensures
            n == self@.queue.len(),
    {
        self.queue.len()
    }

    /// Append a request to the tail of the queue. Never dispatches and
    /// never blocks; dispatch happens only through [`Self::flush`].
    pub fn push(&mut self, request: LoadRequest)
        ensures
            final(self)@.locked == old(self)@.locked,
            final(self)@.queue == old(self)@.queue.push(request@),
    {
        self.queue.push_back(request);
        proof {
            assert(self@.queue =~= old(self)@.queue.push(request@));
        }
    }

    /// Claim the single-flight lock. Returns true exactly when the lock
    /// was free, in which case the caller owns it.
    fn try_claim(&mut self) -> (claimed: bool)
        ensures
            claimed == !old(self)@.locked,
            final(self)@.locked == true,
            final(self)@.queue == old(self)@.queue,
    {
        let was_locked = self.lock;
        self.lock = true;
        !was_locked
    }

    /// Release the single-flight lock.
    pub fn unlock(&mut self)
        ensures
            final(self)@.locked == false,
            final(self)@.queue == old(self)@.queue,
    {
        self.lock = false;
    }

    /// Remove and return the head of the queue.
    fn pop(&mut self) -> (r: Option<LoadRequest>)
        ensures
            final(self)@.locked == old(self)@.locked,
            match r {
                Some(req) => old(self)@.queue.len() > 0 && req@ == old(self)@.queue[0]
                    && final(self)@.queue == old(self)@.queue.drop_first(),
                None => old(self)@.queue.len() == 0 && final(self)@.queue == old(self)@.queue,
            },
    {
        let r = self.queue.pop_front();
        proof {
            if old(self).queue@.len() > 0 {
                assert(self@.queue =~= old(self)@.queue.drop_first());
            } else {
                assert(self@.queue =~= old(self)@.queue);
            }
        }
        r
    }

    /// Attempt to drain the next pending request.
    ///
    /// If the lock is held this is a no-op: whoever holds it will drain
    /// again on completion. Otherwise the lock is claimed and the head of
    /// the queue is returned for the caller to dispatch to the engine,
    /// with the lock kept until the terminal load event. An idle flush of
    /// an empty queue releases the lock at once and changes nothing.
    pub fn flush(&mut self) -> (dispatch: Option<LoadRequest>)
        ensures
            final(self)@ == flush_state(old(self)@),
            match dispatch {
                Some(req) => flush_dispatch(old(self)@) == Some(req@),
                None => flush_dispatch(old(self)@) is None,
            },
    {
        if self.try_claim() {
            match self.pop() {
                Some(request) => Some(request),
                None => {
                    self.unlock();
                    None
                },
            }
        } else {
            None
        }
    }

    /// React to the terminal load event of the active navigation: release
    /// the lock and drain the next pending request, if any, exactly as a
    /// flush would.
    pub fn load_finished(&mut self) -> (dispatch: Option<LoadRequest>)
        ensures
            final(self)@ == finished_state(old(self)@),
            match dispatch {
                Some(req) => finished_dispatch(old(self)@) == Some(req@),
                None => finished_dispatch(old(self)@) is None,
            },
    {
        self.unlock();
        self.flush()
    }
}

impl Default for LoadSerializer {
    /// Same as [`LoadSerializer::new`].
    fn default() -> (s: Self)
        ensures
            s@ == idle_empty(),
    {
        LoadSerializer::new()
    }
}

} // verus!
