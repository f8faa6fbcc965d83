//! A value-coalescing batch dispatcher.
//!
//! Callers hand items to a [`Batcher`] one submission at a time. While no
//! batch is in flight, a submission starts a run at once: the batcher hands
//! the submitted items back as the batch to dispatch to the processing
//! function. While a run is in flight, submissions are queued instead, and
//! they all coalesce into a single next batch. When the driver reports the
//! in-flight run finished (`done`), the batcher returns the callbacks to
//! notify, paired with the run's result, and — if anything was queued
//! meanwhile — the next batch to dispatch, all within that same call, so a
//! chain of back-to-back batches needs no external scheduler tick.
//!
//! The batcher itself never calls the processing function or a callback: it
//! is the state machine that decides *when* they must be called and *with
//! what*. A thin unverified driver owns the actual closures and performs
//! each action the batcher hands out.

use vstd::prelude::*;

pub mod laws;

verus! {

/// A completion callback as the batcher stores it: either a caller-supplied
/// value, or the no-op that a plain `append` registers, so that every
/// submission contributes exactly one callback to its batch.
pub enum Callback<C> {
    /// The no-op callback of a callback-less submission.
    Noop,
    /// A caller-supplied callback value.
    Call(C),
}

/// Misuse of the completion protocol: `done` was called while no batch was
/// in flight (either never started, or already completed).
#[derive(Clone, Copy, Debug, PartialEq, Eq, Structural)]
pub struct ProtocolViolation;

/// Everything one completed run hands back to the driver:
/// the run's result, the callbacks to notify with that result (in submission
/// order), and the next batch to dispatch, if submissions were queued while
/// the run was in flight.
pub struct Completion<T, C, E> {
    /// The completed run's outcome, to be delivered to every callback below.
    pub result: Result<(), E>,
    /// The completed run's callbacks, in submission order.
    pub callbacks: Vec<Callback<C>>,
    /// The coalesced next batch, if the completion chains into a new run;
    /// `None` exactly when the batcher went idle.
    pub next_batch: Option<Vec<T>>,
}

/// The abstract state of a [`Batcher`]: the running flag and the three
/// callback/item queues, as mathematical sequences.
#[verifier::ext_equal]
pub struct BatcherView<T, C> {
    /// Whether a batch is in flight.
    pub running: bool,
    /// Items queued while running, in arrival order; the next batch.
    pub pending_items: Seq<T>,
    /// Callbacks of the queued submissions, in submission order.
    pub pending_cbs: Seq<Callback<C>>,
    /// Callbacks of the batch currently in flight, in submission order.
    pub active_cbs: Seq<Callback<C>>,
}

impl<T, C> BatcherView<T, C> {
    /// The state of a freshly created batcher: idle, with nothing queued.
    pub open spec fn init() -> Self {
        BatcherView {
            running: false,
            pending_items: Seq::<T>::empty(),
            pending_cbs: Seq::<Callback<C>>::empty(),
            active_cbs: Seq::<Callback<C>>::empty(),
        }
    }

    /// Well-formedness: an idle batcher holds nothing; an in-flight batch has
    /// at least one callback (one per submission that contributed to it); and
    /// queued items never outlive the queued callbacks they arrived with.
    pub open spec fn wf(self) -> bool {
        &&& (!self.running ==> self.active_cbs.len() == 0 && self.pending_items.len() == 0
            && self.pending_cbs.len() == 0)
        &&& (self.running ==> self.active_cbs.len() >= 1)
        &&& (self.pending_items.len() > 0 ==> self.pending_cbs.len() > 0)
    }

    /// The state after one submission. Idle: a run starts, carrying exactly
    /// this submission's callback. Running: items and callback are queued.
    pub open spec fn submit_step(self, items: Seq<T>, cb: Callback<C>) -> Self {
        if self.running {
            BatcherView {
                running: true,
                pending_items: self.pending_items + items,
                pending_cbs: self.pending_cbs.push(cb),
                active_cbs: self.active_cbs,
            }
        } else {
            BatcherView {
                running: true,
                pending_items: self.pending_items,
                pending_cbs: self.pending_cbs,
                active_cbs: seq![cb],
            }
        }
    }

    /// Whether completing the in-flight run chains directly into a next run:
    /// it does exactly when anything was queued meanwhile (an empty
    /// submission with a callback still forces a batch boundary).
    pub open spec fn chains(self) -> bool {
        self.pending_items.len() > 0 || self.pending_cbs.len() > 0
    }

    /// The state after the in-flight run completes: the queues drain into
    /// the next run, or the batcher goes idle if nothing was queued.
    pub open spec fn complete_step(self) -> Self {
        if self.chains() {
            BatcherView {
                running: true,
                pending_items: Seq::<T>::empty(),
                pending_cbs: Seq::<Callback<C>>::empty(),
                active_cbs: self.pending_cbs,
            }
        } else {
            BatcherView {
                running: false,
                pending_items: Seq::<T>::empty(),
                pending_cbs: Seq::<Callback<C>>::empty(),
                active_cbs: Seq::<Callback<C>>::empty(),
            }
        }
    }
}

/// The coalescing dispatcher. `T` is the item type; `C` the caller's
/// callback type, which the batcher stores and hands back but never invokes.
pub struct Batcher<T, C> {
    running: bool,
    pending_batch: Vec<T>,
    pending_callbacks: Vec<Callback<C>>,
    callbacks: Vec<Callback<C>>,
}

impl<T, C> View for Batcher<T, C> {
    type V = BatcherView<T, C>;

    closed spec fn view(&self) -> BatcherView<T, C> {
        BatcherView {
            running: self.running,
            pending_items: self.pending_batch@,
            pending_cbs: self.pending_callbacks@,
            active_cbs: self.callbacks@,
        }
    }
}

impl<T, C> Batcher<T, C> {
    /// Well-formedness of the concrete batcher, as of its abstract state.
    pub open spec fn wf(self) -> bool {
        self@.wf()
    }

    /// Create an idle batcher with empty queues.
    pub fn new() -> (b: Self)
        ensures
            b@ == BatcherView::<T, C>::init(),
            b.wf(),
    {
        let b = Batcher {
            running: false,
            pending_batch: Vec::new(),
            pending_callbacks: Vec::new(),
            callbacks: Vec::new(),
        };
        proof {
            assert(b@ =~= BatcherView::<T, C>::init());
        }
        b
    }

    /// Whether a batch is currently in flight.
    pub fn is_running(&self) -> (r: bool)
        ensures
            r == self@.running,
    {
        self.running
    }

    /// The one submission path: records the callback and either starts a run
    /// (idle) or queues the items (running).
    fn submit_inner(&mut self, val: Vec<T>, cb: Callback<C>) -> (r: Option<Vec<T>>)
        requires
            old(self).wf(),
        ensures
            final(self).wf(),
            final(self)@ == old(self)@.submit_step(val@, cb),
            old(self)@.running ==> r is None,
            !old(self)@.running ==> (r matches Some(b) && b@ == val@),
    {
        if self.running {
            let mut tail = val;
            self.pending_batch.append(&mut tail);
            self.pending_callbacks.push(cb);
            None
        } else {
            self.running = true;
            self.callbacks.push(cb);
            proof {
                assert(self@ =~= old(self)@.submit_step(val@, cb));
            }
            Some(val)
        }
    }

    /// Submit items with no callback of their own.
    ///
    /// On an idle batcher this starts a run at once: the returned batch —
    /// exactly the submitted items — must be dispatched to the processing
    /// function before anything else touches the batcher. While a run is in
    /// flight it returns `None` and queues the items for the next batch.
    pub fn append(&mut self, val: Vec<T>) -> (r: Option<Vec<T>>)
        requires
            old(self).wf(),
        ensures
            final(self).wf(),
            final(self)@ == old(self)@.submit_step(val@, Callback::Noop),
            old(self)@.running ==> r is None,
            !old(self)@.running ==> (r matches Some(b) && b@ == val@),
    {
        self.submit_inner(val, Callback::Noop)
    }

    /// Submit items together with a completion callback. The callback is
    /// invoked (by the driver) exactly when the batch containing these items
    /// completes, with that batch's result. Behaves as [`Self::append`]
    /// otherwise; an empty `val` with a callback is legal and still receives
    /// a notification at the next batch boundary.
    pub fn appendcb(&mut self, val: Vec<T>, cb: C) -> (r: Option<Vec<T>>)
        requires
            old(self).wf(),
        ensures
            final(self).wf(),
            final(self)@ == old(self)@.submit_step(val@, Callback::Call(cb)),
            old(self)@.running ==> r is None,
            !old(self)@.running ==> (r matches Some(b) && b@ == val@),
    {
        self.submit_inner(val, Callback::Call(cb))
    }

    /// Complete the in-flight run with `result`.
    ///
    /// Returns `Err(ProtocolViolation)` — leaving the batcher untouched —
    /// exactly when no batch is in flight. Otherwise it returns, in one
    /// call: the completed run's callbacks in submission order, paired with
    /// `result` for the driver to deliver; and the coalesced next batch if
    /// anything was queued during the run (`None` exactly when the batcher
    /// went idle). When a next batch is handed out the batcher is already
    /// running on its behalf, its active callbacks being the queued ones; a
    /// driver should notify the returned callbacks before dispatching it.
    pub fn done<E>(&mut self, result: Result<(), E>) -> (r: Result<
        Completion<T, C, E>,
        ProtocolViolation,
    >)
        requires
            old(self).wf(),
        ensures
            final(self).wf(),
            !old(self)@.running ==> r is Err && final(self)@ == old(self)@,
            old(self)@.running ==> (r matches Ok(c) && {
                &&& final(self)@ == old(self)@.complete_step()
                &&& c.result == result
                &&& c.callbacks@ == old(self)@.active_cbs
                &&& (old(self)@.chains() ==> (c.next_batch matches Some(b) && b@ == old(
                    self,
                )@.pending_items))
                &&& (!old(self)@.chains() ==> c.next_batch is None)
            }),
    {
        if !self.running {
            return Err(ProtocolViolation);
        }
        let mut delivered: Vec<Callback<C>> = Vec::new();
        core::mem::swap(&mut delivered, &mut self.callbacks);
        let mut next_cbs: Vec<Callback<C>> = Vec::new();
        core::mem::swap(&mut next_cbs, &mut self.pending_callbacks);
        let mut next_items: Vec<T> = Vec::new();
        core::mem::swap(&mut next_items, &mut self.pending_batch);
        if next_items.len() == 0 && next_cbs.len() == 0 {
            self.running = false;
            proof {
                assert(self@ =~= old(self)@.complete_step());
            }
            Ok(Completion { result: result, callbacks: delivered, next_batch: None })
        } else {
            self.callbacks = next_cbs;
            proof {
                assert(self@ =~= old(self)@.complete_step());
            }
            Ok(Completion { result: result, callbacks: delivered, next_batch: Some(next_items) })
        }
    }
}

} // verus!
