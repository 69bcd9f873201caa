//! The progress protocol of multi-file operations: the expected item count
//! once, then one report per item in traversal order, then one report on
//! whether the walk itself succeeded. A failed item never ends the batch.
use vstd::prelude::*;
use crate::outcome::EngineError;

verus! {

/// A report on one processed item.
#[derive(Debug)]
pub struct BatchItem<T> {
    pub source: String,
    pub dest: String,
    pub result: Result<T, EngineError>,
}

/// A report that came out of the protocol's order; it is not recorded.
#[derive(Clone, Copy, Debug, PartialEq, Eq)]
pub enum ProtocolError {
    TotalRepeated,
    ItemBeforeTotal,
    ItemAfterComplete,
    CompleteBeforeTotal,
    CompleteRepeated,
}

/// The reports of one batch, as received.
#[derive(Debug)]
pub struct BatchProgress<T> {
    pub total: Option<usize>,
    pub items: Vec<BatchItem<T>>,
    pub completed: Option<bool>,
}

/// The number of items of `items` that succeeded.
pub open spec fn ok_count<T>(items: Seq<BatchItem<T>>) -> nat
    decreases items.len(),
{
    if items.len() == 0 {
        0
    } else {
        ok_count(items.drop_last()) + if items.last().result is Ok {
            1nat
        } else {
            0nat
        }
    }
}

impl<T> BatchProgress<T> {
    /// Nothing comes before the total.
    pub open spec fn well_formed(&self) -> bool {
        (self.items@.len() > 0 || self.completed is Some) ==> self.total is Some
    }

    /// Whether nothing was recorded before the total.
    pub fn is_well_formed(&self) -> (r: bool)
        ensures
            r == self.well_formed(),
    {
        self.total.is_some() || (self.items.len() == 0 && self.completed.is_none())
    }

    pub fn new() -> (r: Self)
        ensures
            r.well_formed(),
            r.total is None,
            r.items@.len() == 0,
            r.completed is None,
    {
        BatchProgress { total: None, items: Vec::new(), completed: None }
    }

    /// Records the expected item count; only the first report is taken.
    pub fn on_total(&mut self, expected: usize) -> (r: Result<(), ProtocolError>)
        requires
            old(self).well_formed(),
        ensures
            final(self).well_formed(),
            final(self).items@ == old(self).items@,
            final(self).completed == old(self).completed,
            old(self).total is None ==> r is Ok && final(self).total == Some(expected),
            old(self).total is Some ==> (r matches Err(ProtocolError::TotalRepeated)) && final(self).total == old(self).total,
    {
        if self.total.is_some() {
            Err(ProtocolError::TotalRepeated)
        } else {
            self.total = Some(expected);
            Ok(())
        }
    }

    /// Records one item after the total and before completion, after every
    /// item recorded so far, whether it succeeded or failed.
    pub fn on_item(&mut self, item: BatchItem<T>) -> (r: Result<(), ProtocolError>)
        requires
            old(self).well_formed(),
        ensures
            final(self).well_formed(),
            final(self).total == old(self).total,
            final(self).completed == old(self).completed,
            old(self).total is None ==> (r matches Err(ProtocolError::ItemBeforeTotal))
                && final(self).items@ == old(self).items@,
            old(self).total is Some && old(self).completed is Some ==> (r matches Err(ProtocolError::ItemAfterComplete)) && final(self).items@ == old(self).items@,
            old(self).total is Some && old(self).completed is None ==> r is Ok && final(self).items@ == old(self).items@.push(item),
    {
        if self.total.is_none() {
            Err(ProtocolError::ItemBeforeTotal)
        } else if self.completed.is_some() {
            Err(ProtocolError::ItemAfterComplete)
        } else {
            self.items.push(item);
            Ok(())
        }
    }

    /// Records the end of the walk; only the first report is taken.
    pub fn on_complete(&mut self, walk_succeeded: bool) -> (r: Result<(), ProtocolError>)
        requires
            old(self).well_formed(),
        ensures
            final(self).well_formed(),
            final(self).total == old(self).total,
            final(self).items@ == old(self).items@,
            old(self).total is None ==> (r matches Err(ProtocolError::CompleteBeforeTotal))
                && final(self).completed == old(self).completed,
            old(self).total is Some && old(self).completed is Some ==> (r matches Err(ProtocolError::CompleteRepeated)) && final(self).completed == old(self).completed,
            old(self).total is Some && old(self).completed is None ==> r is Ok && final(self).completed == Some(walk_succeeded),
    {
        if self.total.is_none() {
            Err(ProtocolError::CompleteBeforeTotal)
        } else if self.completed.is_some() {
            Err(ProtocolError::CompleteRepeated)
        } else {
            self.completed = Some(walk_succeeded);
            Ok(())
        }
    }

    /// The number of items that succeeded.
    pub fn succeeded(&self) -> (r: usize)
        ensures
            r == ok_count(self.items@),
    {
        let mut n: usize = 0;
        let mut i: usize = 0;
        while i < self.items.len()
            invariant
                0 <= i <= self.items@.len(),
                n == ok_count(self.items@.subrange(0, i as int)),
                n <= i,
            decreases self.items@.len() - i,
        {
            assert(self.items@.subrange(0, i + 1).drop_last() =~= self.items@.subrange(0, i as int));
            if self.items[i].result.is_ok() {
                n = n + 1;
            }
            i = i + 1;
        }
        assert(self.items@.subrange(0, i as int) =~= self.items@);
        n
    }

    /// The number of items that failed.
    pub fn failed(&self) -> (r: usize)
        ensures
            r == self.items@.len() - ok_count(self.items@),
    {
        proof {
            lemma_ok_count_bound(self.items@);
        }
        self.items.len() - self.succeeded()
    }
}

proof fn lemma_ok_count_bound<T>(items: Seq<BatchItem<T>>)
    ensures
        ok_count(items) <= items.len(),
    decreases items.len(),
{
    if items.len() > 0 {
        lemma_ok_count_bound(items.drop_last());
    }
}

} // verus!
