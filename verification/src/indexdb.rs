use vstd::prelude::*;

use crate::event_repository::all_added;

verus! {

/// The failures of the plain IndexedDB database handle, one per step that can fail.
#[derive(Debug, Clone, Copy, PartialEq, Eq, Structural)]
pub enum DatabaseError {
    CreateFactory,
    OpenDatabase,
    GetDatabase,
    CreateObjectStore,
    CreateIndex,
    OpenRequest,
    CreateTransaction,
    GetObjectStore,
    AddValue,
    CommitTransaction,
}

/// The text that reports each failure.
pub open spec fn database_error_message(e: DatabaseError) -> Seq<char> {
    match e {
        DatabaseError::CreateFactory => "Error creating factory"@,
        DatabaseError::OpenDatabase => "Error opening database"@,
        DatabaseError::GetDatabase => "Error getting database"@,
        DatabaseError::CreateObjectStore => "Error creating object store"@,
        DatabaseError::CreateIndex => "Error creating index"@,
        DatabaseError::OpenRequest => "Error opening request"@,
        DatabaseError::CreateTransaction => "Error creating transaction"@,
        DatabaseError::GetObjectStore => "Error getting object store"@,
        DatabaseError::AddValue => "Error adding value"@,
        DatabaseError::CommitTransaction => "Error commiting the transaction"@,
    }
}

impl DatabaseError {
    /// The text that reports this failure.
    pub fn message(&self) -> (text: String)
        ensures
            text@ == database_error_message(*self),
    {
        match self {
            DatabaseError::CreateFactory => "Error creating factory".to_owned(),
            DatabaseError::OpenDatabase => "Error opening database".to_owned(),
            DatabaseError::GetDatabase => "Error getting database".to_owned(),
            DatabaseError::CreateObjectStore => "Error creating object store".to_owned(),
            DatabaseError::CreateIndex => "Error creating index".to_owned(),
            DatabaseError::OpenRequest => "Error opening request".to_owned(),
            DatabaseError::CreateTransaction => "Error creating transaction".to_owned(),
            DatabaseError::GetObjectStore => "Error getting object store".to_owned(),
            DatabaseError::AddValue => "Error adding value".to_owned(),
            DatabaseError::CommitTransaction => "Error commiting the transaction".to_owned(),
        }
    }
}

/// What the driver of a push of values does next.
#[derive(Debug, Clone, Copy, PartialEq, Eq)]
pub enum PushStep {
    /// Add the value at this position to the object store.
    Add(usize),
    /// Commit the transaction.
    Commit,
    /// The push is over, with this result.
    Finish(Result<(), DatabaseError>),
}

/// How far a push has come: the number of values, whether the store accepted
/// each value tried so far, and how the commit went, if it was tried.
pub struct PushProgress {
    pub total: nat,
    pub outcomes: Seq<bool>,
    pub commit: Option<bool>,
}

/// The last value tried was refused.
pub open spec fn last_refused(outcomes: Seq<bool>) -> bool {
    outcomes.len() > 0 && !outcomes.last()
}

/// The next step of a push: values are added in order and the first refusal
/// ends the push; once all were added, the transaction is committed.
pub open spec fn push_step_of(p: PushProgress) -> PushStep {
    if last_refused(p.outcomes) {
        PushStep::Finish(Err(DatabaseError::AddValue))
    } else if p.outcomes.len() < p.total {
        PushStep::Add(p.outcomes.len() as usize)
    } else {
        match p.commit {
            None => PushStep::Commit,
            Some(true) => PushStep::Finish(Ok(())),
            Some(false) => PushStep::Finish(Err(DatabaseError::CommitTransaction)),
        }
    }
}

/// The decisions of one push of values in a single read-write transaction.
pub struct PushBatch {
    total: usize,
    attempted: usize,
    refused: bool,
    commit: Option<bool>,
    outcomes: Ghost<Seq<bool>>,
}

impl View for PushBatch {
    type V = PushProgress;

    closed spec fn view(&self) -> PushProgress {
        PushProgress { total: self.total as nat, outcomes: self.outcomes@, commit: self.commit }
    }
}

impl PushBatch {
    #[verifier::type_invariant]
    closed spec fn inv(self) -> bool {
        &&& self.attempted == self.outcomes@.len()
        &&& self.attempted <= self.total
        &&& self.refused == last_refused(self.outcomes@)
        &&& forall|i: int| 0 <= i < self.outcomes@.len() - 1 ==> #[trigger] self.outcomes@[i]
        &&& self.commit is Some ==> (self.attempted == self.total && !self.refused)
    }

    /// A push of `total` values, none tried yet.
    pub fn new(total: usize) -> (batch: Self)
        ensures
            batch@ == (PushProgress { total: total as nat, outcomes: Seq::empty(), commit: None }),
            push_reachable(batch@),
    {
        PushBatch { total, attempted: 0, refused: false, commit: None, outcomes: Ghost(Seq::empty()) }
    }

    /// What to do next.
    pub fn next_step(&self) -> (step: PushStep)
        ensures
            step == push_step_of(self@),
            (!last_refused(self@.outcomes) && self@.outcomes.len() < self@.total) ==> step == PushStep::Add(
                self@.outcomes.len() as usize,
            ),
    {
        proof {
            use_type_invariant(self);
        }
        if self.refused {
            PushStep::Finish(Err(DatabaseError::AddValue))
        } else if self.attempted < self.total {
            PushStep::Add(self.attempted)
        } else {
            match self.commit {
                None => PushStep::Commit,
                Some(true) => PushStep::Finish(Ok(())),
                Some(false) => PushStep::Finish(Err(DatabaseError::CommitTransaction)),
            }
        }
    }

    /// Records whether the store accepted the value that was added last.
    pub fn record_add(&mut self, added: bool)
        requires
            push_step_of(old(self)@) is Add,
        ensures
            final(self)@ == (PushProgress { outcomes: old(self)@.outcomes.push(added), ..old(self)@ }),
            push_reachable(final(self)@),
    {
        proof {
            use_type_invariant(&*self);
        }
        let ghost outcomes = self.outcomes@.push(added);
        assert(forall|i: int| 0 <= i < outcomes.len() - 1 ==> #[trigger] outcomes[i]) by {
            assert forall|i: int| 0 <= i < outcomes.len() - 1 implies #[trigger] outcomes[i] by {
                assert(outcomes[i] == self.outcomes@[i]);
                if i < self.outcomes@.len() - 1 {
                    assert(self.outcomes@[i]);
                }
            }
        }
        *self = PushBatch {
            total: self.total,
            attempted: self.attempted + 1,
            refused: !added,
            commit: None,
            outcomes: Ghost(outcomes),
        };
        proof {
            use_type_invariant(&*self);
        }
    }

    /// Records whether the commit succeeded.
    pub fn record_commit(&mut self, committed: bool)
        requires
            push_step_of(old(self)@) is Commit,
        ensures
            final(self)@ == (PushProgress { commit: Some(committed), ..old(self)@ }),
            push_reachable(final(self)@),
    {
        proof {
            use_type_invariant(&*self);
        }
        *self = PushBatch {
            total: self.total,
            attempted: self.attempted,
            refused: self.refused,
            commit: Some(committed),
            outcomes: Ghost(self.outcomes@),
        };
        proof {
            use_type_invariant(&*self);
        }
    }
}


/// The states that a push passes through: values were tried in order, all but
/// possibly the last were accepted, and a commit was only tried after all of
/// them were.
pub open spec fn push_reachable(p: PushProgress) -> bool {
    &&& p.outcomes.len() <= p.total
    &&& forall|i: int| 0 <= i < p.outcomes.len() - 1 ==> #[trigger] p.outcomes[i]
    &&& p.commit is Some ==> (p.outcomes.len() == p.total && !last_refused(p.outcomes))
}

/// The first refused value ends a push: nothing more is added and nothing is
/// committed.
pub proof fn lemma_push_stops_at_first_refusal(p: PushProgress)
    requires
        last_refused(p.outcomes),
    ensures
        push_step_of(p) == PushStep::Finish(Err(DatabaseError::AddValue)),
{
}

/// Values are added in order, each once: while no value was refused and
/// fewer than all were tried, the next step adds the value at the position
/// equal to the number tried so far.
pub proof fn lemma_push_adds_in_order(p: PushProgress)
    requires
        push_reachable(p),
        !last_refused(p.outcomes),
        p.outcomes.len() < p.total,
        p.total <= usize::MAX,
    ensures
        push_step_of(p) == PushStep::Add(p.outcomes.len() as usize),
        push_step_of(PushProgress { outcomes: p.outcomes.push(true), ..p }) != PushStep::Add(
            p.outcomes.len() as usize,
        ),
{
    let q = PushProgress { outcomes: p.outcomes.push(true), ..p };
    assert(!last_refused(q.outcomes));
}

/// A push commits only once every value was added.
pub proof fn lemma_push_commits_after_all_added(p: PushProgress)
    requires
        push_reachable(p),
    ensures
        (push_step_of(p) is Commit) <==> (p.outcomes.len() == p.total && all_added(p.outcomes) && p.commit is None),
{
    if p.outcomes.len() == p.total && !last_refused(p.outcomes) && p.outcomes.len() > 0 {
        assert(p.outcomes[p.outcomes.len() - 1]);
    }
}

/// A push succeeds exactly when every value was added and the commit went
/// through.
pub proof fn lemma_push_settles(p: PushProgress)
    requires
        push_reachable(p),
    ensures
        (push_step_of(p) == PushStep::Finish(Ok(()))) <==> (p.outcomes.len() == p.total && all_added(
            p.outcomes,
        ) && p.commit == Some(true)),
{
    if p.outcomes.len() > 0 && !last_refused(p.outcomes) {
        assert(p.outcomes[p.outcomes.len() - 1]);
    }
}

} // verus!
