//! The batcher's guarantees across whole call sequences, stated over the
//! abstract model and proved once and for all: what any number of
//! submissions issued during one run adds up to, and what each completion
//! then delivers.

use vstd::prelude::*;

use crate::BatcherView;
use crate::Callback;

verus! {

/// One submission, as the model sees it: the items and the callback that
/// arrived with them.
pub struct Submission<T, C> {
    /// The submitted items, in order.
    pub items: Seq<T>,
    /// The callback registered with them.
    pub cb: Callback<C>,
}

/// The state after the submissions in `subs`, issued in order.
pub open spec fn apply_submissions<T, C>(
    s: BatcherView<T, C>,
    subs: Seq<Submission<T, C>>,
) -> BatcherView<T, C>
    decreases subs.len(),
{
    if subs.len() == 0 {
        s
    } else {
        apply_submissions(s.submit_step(subs[0].items, subs[0].cb), subs.drop_first())
    }
}

/// The concatenation of the submissions' items, in submission order.
pub open spec fn concat_items<T, C>(subs: Seq<Submission<T, C>>) -> Seq<T>
    decreases subs.len(),
{
    if subs.len() == 0 {
        Seq::<T>::empty()
    } else {
        subs[0].items + concat_items(subs.drop_first())
    }
}

/// The submissions' callbacks, one per submission, in submission order.
pub open spec fn callbacks_of<T, C>(subs: Seq<Submission<T, C>>) -> Seq<Callback<C>>
    decreases subs.len(),
{
    if subs.len() == 0 {
        Seq::<Callback<C>>::empty()
    } else {
        seq![subs[0].cb] + callbacks_of(subs.drop_first())
    }
}

/// `callbacks_of` lists exactly one callback per submission, in order.
pub proof fn lemma_callbacks_of_indexed<T, C>(subs: Seq<Submission<T, C>>)
    ensures
        callbacks_of(subs).len() == subs.len(),
        forall|j: int| 0 <= j < subs.len() ==> callbacks_of(subs)[j] == subs[j].cb,
    decreases subs.len(),
{
    if subs.len() > 0 {
        lemma_callbacks_of_indexed(subs.drop_first());
    }
}

/// Submissions issued while a run is in flight only accumulate: the batcher
/// stays running, the in-flight batch's callbacks are untouched, and the
/// queues grow by exactly the submitted items and callbacks, in order.
pub proof fn lemma_submissions_while_running<T, C>(
    s: BatcherView<T, C>,
    subs: Seq<Submission<T, C>>,
)
    requires
        s.running,
    ensures
        apply_submissions(s, subs).running,
        apply_submissions(s, subs).active_cbs == s.active_cbs,
        apply_submissions(s, subs).pending_items == s.pending_items + concat_items(subs),
        apply_submissions(s, subs).pending_cbs == s.pending_cbs + callbacks_of(subs),
    decreases subs.len(),
{
    if subs.len() == 0 {
        assert(s.pending_items + concat_items(subs) =~= s.pending_items);
        assert(s.pending_cbs + callbacks_of(subs) =~= s.pending_cbs);
    } else {
        let s1 = s.submit_step(subs[0].items, subs[0].cb);
        lemma_submissions_while_running(s1, subs.drop_first());
        assert(s.pending_items + concat_items(subs) =~= s1.pending_items + concat_items(
            subs.drop_first(),
        ));
        assert(s.pending_cbs + callbacks_of(subs) =~= s1.pending_cbs + callbacks_of(
            subs.drop_first(),
        ));
    }
}

/// At most one batch is in flight: after every prefix of a sequence of
/// submissions issued while a run is in flight, the batcher is still
/// running — so, by the contracts of `append` and `appendcb`, none of those
/// submissions dispatches a batch; only completing the in-flight run can
/// start the next one.
pub proof fn lemma_at_most_one_in_flight<T, C>(
    s: BatcherView<T, C>,
    subs: Seq<Submission<T, C>>,
    i: int,
)
    requires
        s.running,
        0 <= i <= subs.len(),
    ensures
        apply_submissions(s, subs.take(i)).running,
{
    lemma_submissions_while_running(s, subs.take(i));
}

/// Coalescing: all submissions issued during one run collapse into a single
/// next batch — the concatenation of their items in submission order — and
/// completing that run hands this batch out together, the batcher then
/// running on its behalf with exactly those submissions' callbacks, which
/// are therefore all notified together when that batch in turn completes.
pub proof fn lemma_coalescing<T, C>(s: BatcherView<T, C>, subs: Seq<Submission<T, C>>)
    requires
        s.running,
        s.pending_items.len() == 0,
        s.pending_cbs.len() == 0,
    ensures
        apply_submissions(s, subs).pending_items == concat_items(subs),
        subs.len() > 0 ==> apply_submissions(s, subs).complete_step().running,
        subs.len() > 0 ==> apply_submissions(s, subs).complete_step().active_cbs == callbacks_of(
            subs,
        ),
{
    lemma_submissions_while_running(s, subs);
    lemma_callbacks_of_indexed(subs);
    assert(s.pending_items + concat_items(subs) =~= concat_items(subs));
    assert(s.pending_cbs + callbacks_of(subs) =~= callbacks_of(subs));
}

/// Callback delivery: starting from a freshly started run with empty queues,
/// completing that run delivers exactly its own callbacks, untouched by the
/// submissions issued meanwhile; and those submissions' callbacks are
/// exactly what the following completion delivers — one callback per
/// submission, each exactly once, in submission order.
pub proof fn lemma_callback_delivery<T, C>(s: BatcherView<T, C>, subs: Seq<Submission<T, C>>)
    requires
        s.running,
        s.pending_items.len() == 0,
        s.pending_cbs.len() == 0,
    ensures
        apply_submissions(s, subs).active_cbs == s.active_cbs,
        apply_submissions(s, subs).pending_cbs == callbacks_of(subs),
        callbacks_of(subs).len() == subs.len(),
        forall|j: int| 0 <= j < subs.len() ==> callbacks_of(subs)[j] == subs[j].cb,
{
    lemma_submissions_while_running(s, subs);
    lemma_callbacks_of_indexed(subs);
    assert(s.pending_cbs + callbacks_of(subs) =~= callbacks_of(subs));
}

/// Empty drain: completing a run during which nothing was queued returns the
/// batcher to the freshly created idle state — in particular, no next batch
/// is handed out and no run starts.
pub proof fn lemma_empty_drain<T, C>(s: BatcherView<T, C>)
    requires
        s.running,
        s.pending_items.len() == 0,
        s.pending_cbs.len() == 0,
    ensures
        s.complete_step() == BatcherView::<T, C>::init(),
{
    assert(s.complete_step() =~= BatcherView::<T, C>::init());
}

} // verus!
