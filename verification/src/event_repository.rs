use vstd::prelude::*;

use crate::error::IndexDbAggregateError;

verus! {

/// An event repository relying on an IndexedDB database for persistence:
/// the database and the object store that hold the events.
pub struct IndexDbEventRepository {
    db_name: String,
    store_name: String,
}

impl IndexDbEventRepository {
    /// The name of the database.
    pub closed spec fn spec_db_name(&self) -> Seq<char> {
        self.db_name@
    }

    /// The name of the object store.
    pub closed spec fn spec_store_name(&self) -> Seq<char> {
        self.store_name@
    }

    /// A repository on the database and store given, by default on the store
    /// `events` of the database `cqrs`.
    pub fn new(db_name: Option<String>, store_name: Option<String>) -> (repo: Self)
        ensures
            repo.spec_db_name() == (match db_name {
                Some(name) => name@,
                None => "cqrs"@,
            }),
            repo.spec_store_name() == (match store_name {
                Some(name) => name@,
                None => "events"@,
            }),
    {
        let db_name = match db_name {
            Some(name) => name,
            None => "cqrs".to_owned(),
        };
        let store_name = match store_name {
            Some(name) => name,
            None => "events".to_owned(),
        };
        IndexDbEventRepository { db_name, store_name }
    }

    /// The name of the database.
    pub fn db_name(&self) -> (name: &str)
        ensures
            name@ == self.spec_db_name(),
    {
        self.db_name.as_str()
    }

    /// The name of the object store.
    pub fn store_name(&self) -> (name: &str)
        ensures
            name@ == self.spec_store_name(),
    {
        self.store_name.as_str()
    }
}


/// What the driver of an insertion does next.
#[derive(Debug)]
pub enum InsertStep {
    /// Add the event at this position of the batch to the object store.
    Add(usize),
    /// Commit the transaction.
    Commit,
    /// The insertion is over, with this result.
    Finish(Result<(), IndexDbAggregateError>),
}

/// How far an insertion has come: the number of events in the batch, whether
/// the store accepted each event tried so far, and whether the transaction
/// was committed.
pub struct InsertProgress {
    pub total: nat,
    pub outcomes: Seq<bool>,
    pub committed: bool,
}

/// The store accepted every event of `outcomes`.
pub open spec fn all_added(outcomes: Seq<bool>) -> bool {
    forall|i: int| 0 <= i < outcomes.len() ==> #[trigger] outcomes[i]
}

/// The result of a batch whose adds came out as `outcomes`: a refused event
/// is an optimistic-lock conflict.
pub open spec fn insert_result(outcomes: Seq<bool>) -> Result<(), IndexDbAggregateError> {
    if all_added(outcomes) {
        Ok(())
    } else {
        Err(IndexDbAggregateError::OptimisticLock)
    }
}

/// The next step of an insertion: every event is tried, even after one was
/// refused; then the transaction is committed only if the store accepted all of
/// them.
pub open spec fn insert_step_of(p: InsertProgress) -> InsertStep {
    if p.outcomes.len() < p.total {
        InsertStep::Add(p.outcomes.len() as usize)
    } else if !all_added(p.outcomes) {
        InsertStep::Finish(Err(IndexDbAggregateError::OptimisticLock))
    } else if !p.committed {
        InsertStep::Commit
    } else {
        InsertStep::Finish(Ok(()))
    }
}

/// The states that an insertion passes through: events were tried in order,
/// and the transaction was committed only after all were tried and accepted.
pub open spec fn insert_reachable(p: InsertProgress) -> bool {
    &&& p.outcomes.len() <= p.total
    &&& p.committed ==> (p.outcomes.len() == p.total && all_added(p.outcomes))
}

/// The decisions of one insertion of a batch of events in a single
/// read-write transaction.
pub struct InsertBatch {
    total: usize,
    attempted: usize,
    failed: bool,
    committed: bool,
    outcomes: Ghost<Seq<bool>>,
}

impl View for InsertBatch {
    type V = InsertProgress;

    closed spec fn view(&self) -> InsertProgress {
        InsertProgress { total: self.total as nat, outcomes: self.outcomes@, committed: self.committed }
    }
}

impl InsertBatch {
    #[verifier::type_invariant]
    closed spec fn inv(self) -> bool {
        &&& self.attempted == self.outcomes@.len()
        &&& self.attempted <= self.total
        &&& self.failed == !all_added(self.outcomes@)
        &&& self.committed ==> (self.attempted == self.total && !self.failed)
    }

    /// An insertion of `total` events, none tried yet.
    pub fn new(total: usize) -> (batch: Self)
        ensures
            batch@ == (InsertProgress { total: total as nat, outcomes: Seq::empty(), committed: false }),
            insert_reachable(batch@),
    {
        InsertBatch { total, attempted: 0, failed: false, committed: false, outcomes: Ghost(Seq::empty()) }
    }

    /// What to do next.
    pub fn next_step(&self) -> (step: InsertStep)
        ensures
            step == insert_step_of(self@),
            self@.outcomes.len() < self@.total ==> step == InsertStep::Add(self@.outcomes.len() as usize),
    {
        proof {
            use_type_invariant(self);
        }
        if self.attempted < self.total {
            InsertStep::Add(self.attempted)
        } else if self.failed {
            InsertStep::Finish(Err(IndexDbAggregateError::OptimisticLock))
        } else if !self.committed {
            InsertStep::Commit
        } else {
            InsertStep::Finish(Ok(()))
        }
    }

    /// Records whether the store accepted the event that was added last.
    pub fn record_add(&mut self, added: bool)
        requires
            old(self)@.outcomes.len() < old(self)@.total,
        ensures
            final(self)@ == (InsertProgress { outcomes: old(self)@.outcomes.push(added), ..old(self)@ }),
            insert_reachable(final(self)@),
    {
        proof {
            use_type_invariant(&*self);
        }
        let ghost outcomes = self.outcomes@.push(added);
        assert(all_added(outcomes) <==> (all_added(self.outcomes@) && added)) by {
            let prev = self.outcomes@;
            assert(forall|i: int| 0 <= i < prev.len() ==> outcomes[i] == prev[i]);
            assert(outcomes[prev.len() as int] == added);
            if all_added(outcomes) {
                assert forall|i: int| 0 <= i < prev.len() implies #[trigger] prev[i] by {
                    assert(outcomes[i]);
                }
            }
            if all_added(prev) && added {
                assert forall|i: int| 0 <= i < outcomes.len() implies #[trigger] outcomes[i] by {
                    if i < prev.len() {
                        assert(prev[i]);
                    }
                }
            }
        }
        *self = InsertBatch {
            total: self.total,
            attempted: self.attempted + 1,
            failed: self.failed || !added,
            committed: false,
            outcomes: Ghost(outcomes),
        };
        proof {
            use_type_invariant(&*self);
        }
    }

    /// Records that the transaction was committed.
    pub fn record_commit(&mut self)
        requires
            insert_step_of(old(self)@) is Commit,
        ensures
            final(self)@ == (InsertProgress { committed: true, ..old(self)@ }),
            insert_reachable(final(self)@),
    {
        proof {
            use_type_invariant(&*self);
        }
        *self = InsertBatch {
            total: self.total,
            attempted: self.attempted,
            failed: self.failed,
            committed: true,
            outcomes: Ghost(self.outcomes@),
        };
        proof {
            use_type_invariant(&*self);
        }
    }
}

/// The result of an insertion once its worker has answered, or has gone away
/// without answering, which counts as an optimistic-lock conflict.
pub fn settle_insert(received: Option<Result<(), IndexDbAggregateError>>) -> (result: Result<(), IndexDbAggregateError>)
    ensures
        result == (match received {
            Some(r) => r,
            None => Err(IndexDbAggregateError::OptimisticLock),
        }),
{
    match received {
        Some(r) => r,
        None => Err(IndexDbAggregateError::OptimisticLock),
    }
}

/// The events of a selection once its worker has answered, or an
/// optimistic-lock conflict if it went away without answering.
pub fn settle_select<T>(received: Option<Vec<T>>) -> (result: Result<Vec<T>, IndexDbAggregateError>)
    ensures
        result == (match received {
            Some(events) => Ok(events),
            None => Err(IndexDbAggregateError::OptimisticLock),
        }),
{
    match received {
        Some(events) => Ok(events),
        None => Err(IndexDbAggregateError::OptimisticLock),
    }
}


/// Every event of a batch is tried, whatever became of the events before it:
/// a refused event does not stop the insertion.
pub proof fn lemma_insert_tries_every_event(total: nat, outcomes: Seq<bool>, committed: bool)
    requires
        outcomes.len() < total,
        total <= usize::MAX,
    ensures
        insert_step_of(InsertProgress { total, outcomes, committed }) == InsertStep::Add(outcomes.len() as usize),
{
}

/// All or nothing: once every event of a batch was tried, the transaction is
/// committed exactly when the store accepted all of them; otherwise the
/// insertion ends in an optimistic-lock conflict without a commit.
pub proof fn lemma_insert_all_or_nothing(total: nat, outcomes: Seq<bool>)
    requires
        outcomes.len() == total,
    ensures
        (insert_step_of(InsertProgress { total, outcomes, committed: false }) is Commit) <==> all_added(outcomes),
        !all_added(outcomes) ==> insert_step_of(InsertProgress { total, outcomes, committed: false })
            == InsertStep::Finish(Err(IndexDbAggregateError::OptimisticLock)),
{
}

/// A batch whose every event the store refuses, as it does when the same
/// events were stored before, ends in an optimistic-lock conflict and is not
/// committed.
pub proof fn lemma_insert_of_refused_events_conflicts(total: nat, outcomes: Seq<bool>)
    requires
        outcomes.len() == total,
        total > 0,
        forall|i: int| 0 <= i < outcomes.len() ==> !outcomes[i],
    ensures
        insert_step_of(InsertProgress { total, outcomes, committed: false })
            == InsertStep::Finish(Err(IndexDbAggregateError::OptimisticLock)),
{
    assert(!outcomes[0]);
}

/// An insertion ends only once every event was tried, and then with
/// `Ok(())` exactly when the store accepted every event and the transaction
/// was committed, and with an optimistic-lock conflict when an event was
/// refused.
pub proof fn lemma_insert_settles(p: InsertProgress)
    requires
        insert_reachable(p),
    ensures
        insert_step_of(p) is Finish ==> p.outcomes.len() == p.total,
        insert_step_of(p) == InsertStep::Finish(Ok(())) <==> (p.outcomes.len() == p.total && all_added(p.outcomes) && p.committed),
        (p.outcomes.len() == p.total && (p.committed || !all_added(p.outcomes))) ==> insert_step_of(p)
            == InsertStep::Finish(insert_result(p.outcomes)),
{
}

} // verus!
