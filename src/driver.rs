//! Folding the events of one streaming task into the caller's values.
//!
//! Each decoded event is handed to the caller's projection, whose outcome is
//! a value to keep, nothing, or an error. The values are kept in arrival
//! order, and the first error fails the whole task with no partial result.
use vstd::prelude::*;
use crate::error::{ClientError, ClientErrorView};

verus! {

/// What a sequence of projection outcomes folds to: the first error, if
/// any, else the kept values in arrival order.
pub open spec fn collected<T>(outs: Seq<Result<Option<T>, ClientErrorView>>) -> Result<
    Seq<T>,
    ClientErrorView,
>
    decreases outs.len(),
{
    if outs.len() == 0 {
        Ok(Seq::empty())
    } else {
        match collected(outs.drop_last()) {
            Err(e) => Err(e),
            Ok(kept) => match outs.last() {
                Err(e) => Err(e),
                Ok(None) => Ok(kept),
                Ok(Some(v)) => Ok(kept.push(v)),
            },
        }
    }
}

/// An outcome whose error is seen through its view.
pub open spec fn outcome_view<T>(o: Result<Option<T>, ClientError>) -> Result<
    Option<T>,
    ClientErrorView,
> {
    match o {
        Ok(v) => Ok(v),
        Err(e) => Err(e@),
    }
}

/// The values kept so far by one streaming task.
pub struct StreamCollector<T> {
    items: Vec<T>,
    outcomes: Ghost<Seq<Result<Option<T>, ClientErrorView>>>,
}

impl<T> StreamCollector<T> {
    /// The projection outcomes accepted so far, in arrival order.
    pub closed spec fn spec_outcomes(&self) -> Seq<Result<Option<T>, ClientErrorView>> {
        self.outcomes@
    }

    /// The task has not failed, and the kept values are what the outcomes fold to.
    pub closed spec fn wf(&self) -> bool {
        collected(self.outcomes@) == Ok::<Seq<T>, ClientErrorView>(self.items@)
    }

    /// A collector that has seen no event.
    pub fn new() -> (r: StreamCollector<T>)
        ensures
            r.wf(),
            r.spec_outcomes() == Seq::<Result<Option<T>, ClientErrorView>>::empty(),
    {
        StreamCollector { items: Vec::new(), outcomes: Ghost(Seq::empty()) }
    }

    /// Accepts the outcome of projecting the next event: a value is kept
    /// after those before it, nothing is skipped, and an error is handed back
    /// to fail the task.
    pub fn accept(&mut self, outcome: Result<Option<T>, ClientError>) -> (r: Result<(), ClientError>)
        requires
            old(self).wf(),
        ensures
            final(self).spec_outcomes() == old(self).spec_outcomes().push(outcome_view(outcome)),
            outcome is Ok ==> r is Ok && final(self).wf(),
            outcome matches Err(e) ==> r matches Err(e2) && e2@ == e@,
    {
        let ghost o = outcome_view(outcome);
        proof {
            let s = self.outcomes@.push(o);
            assert(s.drop_last() =~= self.outcomes@);
        }
        self.outcomes = Ghost(self.outcomes@.push(o));
        match outcome {
            Ok(Some(v)) => {
                self.items.push(v);
                Ok(())
            },
            Ok(None) => Ok(()),
            Err(e) => Err(e),
        }
    }

    /// Ends the task at the end of the stream, with the kept values.
    pub fn finish(self) -> (r: Vec<T>)
        requires
            self.wf(),
        ensures
            collected(self.spec_outcomes()) == Ok::<Seq<T>, ClientErrorView>(r@),
    {
        self.items
    }
}

/// When every event is projected to a value, the task yields those values in
/// arrival order.
pub proof fn lemma_order_preserved<T>(outs: Seq<Result<Option<T>, ClientErrorView>>, vals: Seq<T>)
    requires
        outs.len() == vals.len(),
        forall|i: int| 0 <= i < outs.len() ==> outs[i] == Ok::<Option<T>, ClientErrorView>(Some(vals[i])),
    ensures
        collected(outs) == Ok::<Seq<T>, ClientErrorView>(vals),
    decreases outs.len(),
{
    if outs.len() > 0 {
        let n = outs.len() - 1;
        lemma_order_preserved(outs.drop_last(), vals.drop_last());
        assert(vals.drop_last().push(vals[n]) =~= vals);
    } else {
        assert(vals =~= Seq::<T>::empty());
    }
}

/// If the outcome at `k` is an error, the task fails and yields no partial
/// list, wherever `k` stands.
pub proof fn lemma_fail_fast<T>(outs: Seq<Result<Option<T>, ClientErrorView>>, k: int)
    requires
        0 <= k < outs.len(),
        outs[k] is Err,
    ensures
        collected(outs) is Err,
    decreases outs.len(),
{
    if k < outs.len() - 1 {
        lemma_fail_fast(outs.drop_last(), k);
    }
}

/// The task fails with the first error among the outcomes.
pub proof fn lemma_first_error_wins<T>(outs: Seq<Result<Option<T>, ClientErrorView>>, k: int)
    requires
        0 <= k < outs.len(),
        outs[k] is Err,
        forall|i: int| 0 <= i < k ==> outs[i] is Ok,
    ensures
        collected(outs) == Err::<Seq<T>, ClientErrorView>(outs[k]->Err_0),
    decreases outs.len(),
{
    if k < outs.len() - 1 {
        lemma_first_error_wins(outs.drop_last(), k);
    } else {
        lemma_prefix_ok(outs.drop_last());
    }
}

/// A sequence of outcomes with no error folds to a list.
proof fn lemma_prefix_ok<T>(outs: Seq<Result<Option<T>, ClientErrorView>>)
    requires
        forall|i: int| 0 <= i < outs.len() ==> outs[i] is Ok,
    ensures
        collected(outs) is Ok,
    decreases outs.len(),
{
    if outs.len() > 0 {
        lemma_prefix_ok(outs.drop_last());
    }
}

} // verus!
