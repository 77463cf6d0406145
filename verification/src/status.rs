//! Status vocabularies of the saga and projection-task system tables, their
//! per-status count summaries, and the typed system-store error.
use vstd::prelude::*;

use crate::text::str_eq;

verus! {

/// Typed error of the system-store surfaces.
#[derive(Debug, Clone)]
pub enum SystemStoreError {
    /// The caller passed, or a row held, a value outside the contract.
    InvalidInput(String),
    /// A database round trip failed.
    Io { backend: &'static str, source: String },
    /// A row did not match the schema the store created.
    SchemaMismatch { backend: &'static str, detail: String },
}

// ── Saga status ─────────────────────────────────────────────────────────────

/// Lifecycle status of a saga row.
#[derive(Debug, Clone, Copy, PartialEq, Eq, Structural)]
pub enum SagaStatus {
    Indeterminate,
    InProgress,
    Pending,
    Committed,
    Compensated,
    Failed,
    InDoubt,
    FailedCompensation,
    ManualReview,
}

pub open spec fn saga_status_text(s: SagaStatus) -> Seq<char> {
    match s {
        SagaStatus::Indeterminate => "indeterminate"@,
        SagaStatus::InProgress => "in_progress"@,
        SagaStatus::Pending => "pending"@,
        SagaStatus::Committed => "committed"@,
        SagaStatus::Compensated => "compensated"@,
        SagaStatus::Failed => "failed"@,
        SagaStatus::InDoubt => "in_doubt"@,
        SagaStatus::FailedCompensation => "failed_compensation"@,
        SagaStatus::ManualReview => "manual_review"@,
    }
}

/// The status whose stored text is `t`, if any.
pub open spec fn saga_status_parse_spec(t: Seq<char>) -> Option<SagaStatus> {
    if t == "indeterminate"@ {
        Some(SagaStatus::Indeterminate)
    } else if t == "in_progress"@ {
        Some(SagaStatus::InProgress)
    } else if t == "pending"@ {
        Some(SagaStatus::Pending)
    } else if t == "committed"@ {
        Some(SagaStatus::Committed)
    } else if t == "compensated"@ {
        Some(SagaStatus::Compensated)
    } else if t == "failed"@ {
        Some(SagaStatus::Failed)
    } else if t == "in_doubt"@ {
        Some(SagaStatus::InDoubt)
    } else if t == "failed_compensation"@ {
        Some(SagaStatus::FailedCompensation)
    } else if t == "manual_review"@ {
        Some(SagaStatus::ManualReview)
    } else {
        None
    }
}

impl SagaStatus {
    /// Stored text of the status.
    pub fn as_str(self) -> (r: &'static str)
        ensures
            r@ == saga_status_text(self),
    {
        match self {
            SagaStatus::Indeterminate => "indeterminate",
            SagaStatus::InProgress => "in_progress",
            SagaStatus::Pending => "pending",
            SagaStatus::Committed => "committed",
            SagaStatus::Compensated => "compensated",
            SagaStatus::Failed => "failed",
            SagaStatus::InDoubt => "in_doubt",
            SagaStatus::FailedCompensation => "failed_compensation",
            SagaStatus::ManualReview => "manual_review",
        }
    }

    /// The status stored as `s`, or `None` for any other text.
    pub fn parse(s: &str) -> (r: Option<SagaStatus>)
        ensures
            r == saga_status_parse_spec(s@),
    {
        if str_eq(s, "indeterminate") {
            Some(SagaStatus::Indeterminate)
        } else if str_eq(s, "in_progress") {
            Some(SagaStatus::InProgress)
        } else if str_eq(s, "pending") {
            Some(SagaStatus::Pending)
        } else if str_eq(s, "committed") {
            Some(SagaStatus::Committed)
        } else if str_eq(s, "compensated") {
            Some(SagaStatus::Compensated)
        } else if str_eq(s, "failed") {
            Some(SagaStatus::Failed)
        } else if str_eq(s, "in_doubt") {
            Some(SagaStatus::InDoubt)
        } else if str_eq(s, "failed_compensation") {
            Some(SagaStatus::FailedCompensation)
        } else if str_eq(s, "manual_review") {
            Some(SagaStatus::ManualReview)
        } else {
            None
        }
    }

    /// The statuses the saga table's CHECK constraint admits, in its order.
    pub fn all() -> (r: Vec<SagaStatus>)
        ensures
            r@ == seq![
                SagaStatus::Indeterminate,
                SagaStatus::InProgress,
                SagaStatus::Pending,
                SagaStatus::Committed,
                SagaStatus::Compensated,
                SagaStatus::Failed,
                SagaStatus::FailedCompensation,
                SagaStatus::ManualReview,
            ],
    {
        let mut v: Vec<SagaStatus> = Vec::new();
        v.push(SagaStatus::Indeterminate);
        v.push(SagaStatus::InProgress);
        v.push(SagaStatus::Pending);
        v.push(SagaStatus::Committed);
        v.push(SagaStatus::Compensated);
        v.push(SagaStatus::Failed);
        v.push(SagaStatus::FailedCompensation);
        v.push(SagaStatus::ManualReview);
        v
    }
}

/// Every saga status reads back from its stored text.
pub proof fn lemma_saga_status_round_trip(s: SagaStatus)
    ensures
        saga_status_parse_spec(saga_status_text(s)) == Some(s),
{
    reveal_strlit("indeterminate");
    reveal_strlit("in_progress");
    reveal_strlit("pending");
    reveal_strlit("committed");
    reveal_strlit("compensated");
    reveal_strlit("failed");
    reveal_strlit("in_doubt");
    reveal_strlit("failed_compensation");
    reveal_strlit("manual_review");
    assert("in_progress"@.len() != "indeterminate"@.len());
    assert("pending"@.len() != "indeterminate"@.len());
    assert("pending"@.len() != "in_progress"@.len());
    assert("committed"@.len() != "indeterminate"@.len());
    assert("committed"@.len() != "in_progress"@.len());
    assert("committed"@.len() != "pending"@.len());
    assert("compensated"@.len() != "indeterminate"@.len());
    assert("compensated"@[0] != "in_progress"@[0]);
    assert("compensated"@.len() != "pending"@.len());
    assert("compensated"@.len() != "committed"@.len());
    assert("failed"@.len() != "indeterminate"@.len());
    assert("failed"@.len() != "in_progress"@.len());
    assert("failed"@.len() != "pending"@.len());
    assert("failed"@.len() != "committed"@.len());
    assert("failed"@.len() != "compensated"@.len());
    assert("in_doubt"@.len() != "indeterminate"@.len());
    assert("in_doubt"@.len() != "in_progress"@.len());
    assert("in_doubt"@.len() != "pending"@.len());
    assert("in_doubt"@.len() != "committed"@.len());
    assert("in_doubt"@.len() != "compensated"@.len());
    assert("in_doubt"@.len() != "failed"@.len());
    assert("failed_compensation"@.len() != "indeterminate"@.len());
    assert("failed_compensation"@.len() != "in_progress"@.len());
    assert("failed_compensation"@.len() != "pending"@.len());
    assert("failed_compensation"@.len() != "committed"@.len());
    assert("failed_compensation"@.len() != "compensated"@.len());
    assert("failed_compensation"@.len() != "failed"@.len());
    assert("failed_compensation"@.len() != "in_doubt"@.len());
    assert("manual_review"@[0] != "indeterminate"@[0]);
    assert("manual_review"@.len() != "in_progress"@.len());
    assert("manual_review"@.len() != "pending"@.len());
    assert("manual_review"@.len() != "committed"@.len());
    assert("manual_review"@.len() != "compensated"@.len());
    assert("manual_review"@.len() != "failed"@.len());
    assert("manual_review"@.len() != "in_doubt"@.len());
    assert("manual_review"@.len() != "failed_compensation"@.len());
}

/// Per-status saga counts.
#[derive(Debug, Clone, Copy, PartialEq, Eq, Structural)]
pub struct SagaSummary {
    pub indeterminate: i64,
    pub in_progress: i64,
    pub pending: i64,
    pub committed: i64,
    pub compensated: i64,
    pub failed: i64,
    pub in_doubt: i64,
    pub failed_compensation: i64,
    pub manual_review: i64,
}

pub open spec fn saga_summary_total(s: SagaSummary) -> int {
    s.indeterminate + s.in_progress + s.pending + s.committed + s.compensated + s.failed
        + s.in_doubt + s.failed_compensation + s.manual_review
}

/// The count a summary holds for one status.
pub open spec fn saga_summary_count(s: SagaSummary, st: SagaStatus) -> i64 {
    match st {
        SagaStatus::Indeterminate => s.indeterminate,
        SagaStatus::InProgress => s.in_progress,
        SagaStatus::Pending => s.pending,
        SagaStatus::Committed => s.committed,
        SagaStatus::Compensated => s.compensated,
        SagaStatus::Failed => s.failed,
        SagaStatus::InDoubt => s.in_doubt,
        SagaStatus::FailedCompensation => s.failed_compensation,
        SagaStatus::ManualReview => s.manual_review,
    }
}

/// The summary with the count of `st` replaced by `n`.
pub open spec fn saga_summary_with(s: SagaSummary, st: SagaStatus, n: i64) -> SagaSummary {
    match st {
        SagaStatus::Indeterminate => SagaSummary { indeterminate: n, ..s },
        SagaStatus::InProgress => SagaSummary { in_progress: n, ..s },
        SagaStatus::Pending => SagaSummary { pending: n, ..s },
        SagaStatus::Committed => SagaSummary { committed: n, ..s },
        SagaStatus::Compensated => SagaSummary { compensated: n, ..s },
        SagaStatus::Failed => SagaSummary { failed: n, ..s },
        SagaStatus::InDoubt => SagaSummary { in_doubt: n, ..s },
        SagaStatus::FailedCompensation => SagaSummary { failed_compensation: n, ..s },
        SagaStatus::ManualReview => SagaSummary { manual_review: n, ..s },
    }
}

pub open spec fn saga_summary_zero() -> SagaSummary {
    SagaSummary {
        indeterminate: 0,
        in_progress: 0,
        pending: 0,
        committed: 0,
        compensated: 0,
        failed: 0,
        in_doubt: 0,
        failed_compensation: 0,
        manual_review: 0,
    }
}

impl Default for SagaSummary {
    fn default() -> (r: Self)
        ensures
            r == saga_summary_zero(),
    {
        SagaSummary {
            indeterminate: 0,
            in_progress: 0,
            pending: 0,
            committed: 0,
            compensated: 0,
            failed: 0,
            in_doubt: 0,
            failed_compensation: 0,
            manual_review: 0,
        }
    }
}

impl SagaSummary {
    /// Sum of every per-status count, added left to right (each partial
    /// sum must fit an `i64`).
    pub fn total(&self) -> (r: i64)
        requires
            i64::MIN <= self.indeterminate + self.in_progress <= i64::MAX,
            i64::MIN <= self.indeterminate + self.in_progress + self.pending <= i64::MAX,
            i64::MIN <= self.indeterminate + self.in_progress + self.pending + self.committed <= i64::MAX,
            i64::MIN <= self.indeterminate + self.in_progress + self.pending + self.committed + self.compensated <= i64::MAX,
            i64::MIN <= self.indeterminate + self.in_progress + self.pending + self.committed + self.compensated + self.failed <= i64::MAX,
            i64::MIN <= self.indeterminate + self.in_progress + self.pending + self.committed + self.compensated + self.failed + self.in_doubt <= i64::MAX,
            i64::MIN <= self.indeterminate + self.in_progress + self.pending + self.committed + self.compensated + self.failed + self.in_doubt + self.failed_compensation <= i64::MAX,
            i64::MIN <= self.indeterminate + self.in_progress + self.pending + self.committed + self.compensated + self.failed + self.in_doubt + self.failed_compensation + self.manual_review <= i64::MAX,
        ensures
            r == saga_summary_total(*self),
    {
        self.indeterminate + self.in_progress + self.pending + self.committed + self.compensated
            + self.failed + self.in_doubt + self.failed_compensation + self.manual_review
    }
}

// ── Projection task status ──────────────────────────────────────────────────

/// Lifecycle status of a projection task.
#[derive(Debug, Clone, Copy, PartialEq, Eq, Structural)]
pub enum ProjectionTaskStatus {
    Pending,
    InProgress,
    Completed,
    Failed,
    DeadLetter,
}

pub open spec fn projection_status_text(s: ProjectionTaskStatus) -> Seq<char> {
    match s {
        ProjectionTaskStatus::Pending => "PENDING"@,
        ProjectionTaskStatus::InProgress => "IN_PROGRESS"@,
        ProjectionTaskStatus::Completed => "COMPLETED"@,
        ProjectionTaskStatus::Failed => "FAILED"@,
        ProjectionTaskStatus::DeadLetter => "DEAD_LETTER"@,
    }
}

pub open spec fn projection_status_parse_spec(t: Seq<char>) -> Option<ProjectionTaskStatus> {
    if t == "PENDING"@ {
        Some(ProjectionTaskStatus::Pending)
    } else if t == "IN_PROGRESS"@ {
        Some(ProjectionTaskStatus::InProgress)
    } else if t == "COMPLETED"@ {
        Some(ProjectionTaskStatus::Completed)
    } else if t == "FAILED"@ {
        Some(ProjectionTaskStatus::Failed)
    } else if t == "DEAD_LETTER"@ {
        Some(ProjectionTaskStatus::DeadLetter)
    } else {
        None
    }
}

impl ProjectionTaskStatus {
    /// Stored text of the status.
    pub fn as_str(self) -> (r: &'static str)
        ensures
            r@ == projection_status_text(self),
    {
        match self {
            ProjectionTaskStatus::Pending => "PENDING",
            ProjectionTaskStatus::InProgress => "IN_PROGRESS",
            ProjectionTaskStatus::Completed => "COMPLETED",
            ProjectionTaskStatus::Failed => "FAILED",
            ProjectionTaskStatus::DeadLetter => "DEAD_LETTER",
        }
    }

    /// The status stored as `s`, or `None` for any other text.
    pub fn parse(s: &str) -> (r: Option<ProjectionTaskStatus>)
        ensures
            r == projection_status_parse_spec(s@),
    {
        if str_eq(s, "PENDING") {
            Some(ProjectionTaskStatus::Pending)
        } else if str_eq(s, "IN_PROGRESS") {
            Some(ProjectionTaskStatus::InProgress)
        } else if str_eq(s, "COMPLETED") {
            Some(ProjectionTaskStatus::Completed)
        } else if str_eq(s, "FAILED") {
            Some(ProjectionTaskStatus::Failed)
        } else if str_eq(s, "DEAD_LETTER") {
            Some(ProjectionTaskStatus::DeadLetter)
        } else {
            None
        }
    }

    /// A worker may claim a task that is pending or failed (and not yet
    /// dead-lettered).
    pub fn is_claimable(self) -> (r: bool)
        ensures
            r == (self == ProjectionTaskStatus::Pending || self == ProjectionTaskStatus::Failed),
    {
        match self {
            ProjectionTaskStatus::Pending => true,
            ProjectionTaskStatus::Failed => true,
            _ => false,
        }
    }
}

/// Every projection status reads back from its stored text.
pub proof fn lemma_projection_status_round_trip(s: ProjectionTaskStatus)
    ensures
        projection_status_parse_spec(projection_status_text(s)) == Some(s),
{
    reveal_strlit("PENDING");
    reveal_strlit("IN_PROGRESS");
    reveal_strlit("COMPLETED");
    reveal_strlit("FAILED");
    reveal_strlit("DEAD_LETTER");
    assert("IN_PROGRESS"@.len() != "PENDING"@.len());
    assert("COMPLETED"@.len() != "PENDING"@.len());
    assert("COMPLETED"@.len() != "IN_PROGRESS"@.len());
    assert("FAILED"@.len() != "PENDING"@.len());
    assert("FAILED"@.len() != "IN_PROGRESS"@.len());
    assert("FAILED"@.len() != "COMPLETED"@.len());
    assert("DEAD_LETTER"@.len() != "PENDING"@.len());
    assert("DEAD_LETTER"@[0] != "IN_PROGRESS"@[0]);
    assert("DEAD_LETTER"@.len() != "COMPLETED"@.len());
    assert("DEAD_LETTER"@.len() != "FAILED"@.len());
}

/// Per-status projection-task counts.
#[derive(Debug, Clone, Copy, PartialEq, Eq, Structural)]
pub struct ProjectionTaskSummary {
    pub pending: i64,
    pub in_progress: i64,
    pub completed: i64,
    pub failed: i64,
    pub dead_letter: i64,
}

pub open spec fn projection_summary_total(s: ProjectionTaskSummary) -> int {
    s.pending + s.in_progress + s.completed + s.failed + s.dead_letter
}

pub open spec fn projection_summary_count(s: ProjectionTaskSummary, st: ProjectionTaskStatus) -> i64 {
    match st {
        ProjectionTaskStatus::Pending => s.pending,
        ProjectionTaskStatus::InProgress => s.in_progress,
        ProjectionTaskStatus::Completed => s.completed,
        ProjectionTaskStatus::Failed => s.failed,
        ProjectionTaskStatus::DeadLetter => s.dead_letter,
    }
}

pub open spec fn projection_summary_with(
    s: ProjectionTaskSummary,
    st: ProjectionTaskStatus,
    n: i64,
) -> ProjectionTaskSummary {
    match st {
        ProjectionTaskStatus::Pending => ProjectionTaskSummary { pending: n, ..s },
        ProjectionTaskStatus::InProgress => ProjectionTaskSummary { in_progress: n, ..s },
        ProjectionTaskStatus::Completed => ProjectionTaskSummary { completed: n, ..s },
        ProjectionTaskStatus::Failed => ProjectionTaskSummary { failed: n, ..s },
        ProjectionTaskStatus::DeadLetter => ProjectionTaskSummary { dead_letter: n, ..s },
    }
}

pub open spec fn projection_summary_zero() -> ProjectionTaskSummary {
    ProjectionTaskSummary { pending: 0, in_progress: 0, completed: 0, failed: 0, dead_letter: 0 }
}

impl Default for ProjectionTaskSummary {
    fn default() -> (r: Self)
        ensures
            r == projection_summary_zero(),
    {
        ProjectionTaskSummary { pending: 0, in_progress: 0, completed: 0, failed: 0, dead_letter: 0 }
    }
}

impl ProjectionTaskSummary {
    /// Sum of every per-status count, added left to right (each partial
    /// sum must fit an `i64`).
    pub fn total(&self) -> (r: i64)
        requires
            i64::MIN <= self.pending + self.in_progress <= i64::MAX,
            i64::MIN <= self.pending + self.in_progress + self.completed <= i64::MAX,
            i64::MIN <= self.pending + self.in_progress + self.completed + self.failed <= i64::MAX,
            i64::MIN <= self.pending + self.in_progress + self.completed + self.failed + self.dead_letter <= i64::MAX,
        ensures
            r == projection_summary_total(*self),
    {
        self.pending + self.in_progress + self.completed + self.failed + self.dead_letter
    }
}

} // verus!

verus! {

/// `SystemStoreError::Io` for a backend: the failed operation and the
/// underlying error text.
pub fn io_error(backend: &'static str, op: &str, err: &str) -> (e: SystemStoreError)
    ensures
        e matches SystemStoreError::Io { backend: b, source } && b == backend && source@ == op@
            + ": "@ + err@,
{
    SystemStoreError::Io { backend, source: String::from_str(op).concat(": ").concat(err) }
}

} // verus!
