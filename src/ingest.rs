//! The decisions of the ingestion pipeline: a reader produces one insert statement per
//! feature, each is executed inside one transaction, and the transaction is committed
//! only when every produced statement ran and at least one did.
use vstd::prelude::*;

verus! {

/// Where a pipeline run stands.
#[derive(Clone, Copy, Debug, PartialEq, Eq, Structural)]
pub enum Phase {
    /// Statements are arriving and being executed.
    Streaming,
    /// Every statement ran; the commit has been issued.
    Committing,
    /// The transaction is committed.
    Committed,
    /// The run failed; the transaction is rolled back.
    Aborted { error: IngestionError },
}

/// Why a pipeline run failed.
#[derive(Clone, Copy, Debug, PartialEq, Eq, Structural)]
pub enum IngestionError {
    /// The reader could not open or read the dataset, or turn a feature into a statement.
    Source,
    /// The dataset held no features.
    EmptyDataset,
    /// The statement for the feature at this one-based position failed.
    Statement { position: u64 },
    /// The reader reported more statements than were executed.
    MissingStatements { produced: u64, executed: u64 },
    /// The commit failed.
    Commit,
}

/// How the reader's side of the stream ended.
#[derive(Clone, Copy, Debug, PartialEq, Eq, Structural)]
pub enum SourceEnd {
    /// It walked every feature and sent this many statements.
    Exhausted { produced: u64 },
    /// It stopped on an error.
    Failed,
}

/// What the transaction must do once the stream has closed.
#[derive(Clone, Copy, Debug, PartialEq, Eq, Structural)]
pub enum Finish {
    Commit,
    Rollback,
}

/// One run of the pipeline, as seen by the transaction's side.
#[derive(Clone, Copy, Debug, PartialEq, Eq, Structural)]
pub struct Ingestion {
    /// Statements executed so far inside the transaction.
    pub executed: u64,
    pub phase: Phase,
}

/// The run after a statement's execution ended.
pub open spec fn after_statement(s: Ingestion, ok: bool) -> Ingestion {
    if ok {
        Ingestion { executed: (s.executed + 1) as u64, phase: Phase::Streaming }
    } else {
        Ingestion {
            executed: s.executed,
            phase: Phase::Aborted {
                error: IngestionError::Statement { position: (s.executed + 1) as u64 },
            },
        }
    }
}

/// The run after the stream closed, the reader's side having ended with `end`.
pub open spec fn after_close(s: Ingestion, end: SourceEnd) -> Ingestion {
    Ingestion {
        executed: s.executed,
        phase: match end {
            SourceEnd::Failed => Phase::Aborted { error: IngestionError::Source },
            SourceEnd::Exhausted { produced } => if produced != s.executed {
                Phase::Aborted {
                    error: IngestionError::MissingStatements { produced, executed: s.executed },
                }
            } else if produced == 0 {
                Phase::Aborted { error: IngestionError::EmptyDataset }
            } else {
                Phase::Committing
            },
        },
    }
}

/// The run after the commit ended.
pub open spec fn after_commit(s: Ingestion, ok: bool) -> Ingestion {
    Ingestion {
        executed: s.executed,
        phase: if ok {
            Phase::Committed
        } else {
            Phase::Aborted { error: IngestionError::Commit }
        },
    }
}

impl Ingestion {
    /// The rows of this run that the spatial store shows: all executed ones once
    /// committed, none before or after a rollback.
    pub open spec fn visible_rows(&self) -> int {
        if self.phase == Phase::Committed {
            self.executed as int
        } else {
            0
        }
    }

    /// A run that has not received any statement yet.
    pub fn new() -> (r: Ingestion)
        ensures
            r.executed == 0,
            r.phase == Phase::Streaming,
    {
        Ingestion { executed: 0, phase: Phase::Streaming }
    }

    /// Records the end of one statement's execution. Returns whether the stream goes on;
    /// when it does not, the transaction is to be rolled back.
    pub fn statement_done(&mut self, ok: bool) -> (r: bool)
        requires
            old(self).phase == Phase::Streaming,
            old(self).executed < u64::MAX,
        ensures
            *final(self) == after_statement(*old(self), ok),
            r == ok,
    {
        if ok {
            self.executed = self.executed + 1;
        } else {
            self.phase = Phase::Aborted {
                error: IngestionError::Statement { position: self.executed + 1 },
            };
        }
        ok
    }

    /// Decides, once the stream has closed, whether to commit or roll back.
    pub fn stream_closed(&mut self, end: SourceEnd) -> (r: Finish)
        requires
            old(self).phase == Phase::Streaming,
        ensures
            *final(self) == after_close(*old(self), end),
            r == (if final(self).phase == Phase::Committing {
                Finish::Commit
            } else {
                Finish::Rollback
            }),
    {
        match end {
            SourceEnd::Failed => {
                self.phase = Phase::Aborted { error: IngestionError::Source };
                Finish::Rollback
            },
            SourceEnd::Exhausted { produced } => {
                if produced != self.executed {
                    self.phase = Phase::Aborted {
                        error: IngestionError::MissingStatements {
                            produced,
                            executed: self.executed,
                        },
                    };
                    Finish::Rollback
                } else if produced == 0 {
                    self.phase = Phase::Aborted { error: IngestionError::EmptyDataset };
                    Finish::Rollback
                } else {
                    self.phase = Phase::Committing;
                    Finish::Commit
                }
            },
        }
    }

    /// Records the end of the commit.
    pub fn commit_done(&mut self, ok: bool)
        requires
            old(self).phase == Phase::Committing,
        ensures
            *final(self) == after_commit(*old(self), ok),
    {
        if ok {
            self.phase = Phase::Committed;
        } else {
            self.phase = Phase::Aborted { error: IngestionError::Commit };
        }
    }

    /// The run's result once it has ended: the number of rows committed, or why it failed.
    pub fn outcome(&self) -> (r: Option<Result<u64, IngestionError>>)
        ensures
            r == (match self.phase {
                Phase::Committed => Some(Ok::<u64, IngestionError>(self.executed)),
                Phase::Aborted { error } => Some(Err::<u64, IngestionError>(error)),
                _ => None::<Result<u64, IngestionError>>,
            }),
    {
        match self.phase {
            Phase::Committed => Some(Ok(self.executed)),
            Phase::Aborted { error } => Some(Err(error)),
            _ => None,
        }
    }
}

/// A run whose reader produced `n` statements and whose commit succeeded shows exactly
/// `n` rows, and `n` is positive; every way a run can fail shows none.
pub proof fn lemma_rows_match_features(s: Ingestion, n: u64, ok: bool)
    requires
        s.phase == Phase::Streaming,
    ensures
        after_close(s, SourceEnd::Exhausted { produced: n }).phase == Phase::Committing ==> {
            &&& after_commit(after_close(s, SourceEnd::Exhausted { produced: n }), true).visible_rows() == n
            &&& n > 0
        },
        after_close(s, SourceEnd::Exhausted { produced: n }).phase != Phase::Committing ==> after_close(
            s,
            SourceEnd::Exhausted { produced: n },
        ).visible_rows() == 0,
        after_close(s, SourceEnd::Failed).visible_rows() == 0,
        after_statement(s, false).visible_rows() == 0,
        after_statement(s, ok).phase != Phase::Committed,
        after_commit(after_close(s, SourceEnd::Exhausted { produced: n }), false).visible_rows() == 0,
{
}

} // verus!
