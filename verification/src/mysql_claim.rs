//! The MySQL projection-task claim. MySQL has no `RETURNING`, so a claim
//! runs in one transaction: select the candidate ids `FOR UPDATE SKIP
//! LOCKED`, update those ids to `IN_PROGRESS`, then select the full rows.
//! The statements, their bind lists and the predicate the candidate select
//! states are built and stated here.
use vstd::prelude::*;

use crate::projection::{ClaimCandidate, ProjectionClaimFilter};
use crate::status::ProjectionTaskStatus;

verus! {

// ── The candidate select ────────────────────────────────────────────────────

/// The target filters the candidate select carries, by which are present.
pub open spec fn mysql_target_clause_spec(has_backend: bool, has_instance: bool) -> Seq<char> {
    if has_backend && has_instance {
        "AND target_backend = ? AND target_instance = ?"@
    } else if has_backend {
        "AND target_backend = ?"@
    } else if has_instance {
        "AND target_instance = ?"@
    } else {
        ""@
    }
}

/// The candidate select: pending or failed tasks under the retry cap, of
/// the project (an empty project binds as "any"), due for retry, of the
/// present targets, oldest first, at most the batch size, locking the rows
/// and skipping rows another claim holds.
pub open spec fn mysql_claim_select_spec(table: Seq<char>, has_backend: bool, has_instance: bool) -> Seq<
    char,
> {
    "SELECT task_id FROM "@ + table
        + "\n             WHERE status IN ('PENDING', 'FAILED')\n               AND retry_count < ?\n               AND (? = '' OR project_id = ?)\n               AND (next_retry_at IS NULL OR next_retry_at <= NOW(6))\n               "@
        + mysql_target_clause_spec(has_backend, has_instance)
        + "\n             ORDER BY created_at\n             LIMIT ?\n             FOR UPDATE SKIP LOCKED"@
}

fn mysql_target_clause(has_backend: bool, has_instance: bool) -> (r: &'static str)
    ensures
        r@ == mysql_target_clause_spec(has_backend, has_instance),
{
    if has_backend && has_instance {
        "AND target_backend = ? AND target_instance = ?"
    } else if has_backend {
        "AND target_backend = ?"
    } else if has_instance {
        "AND target_instance = ?"
    } else {
        ""
    }
}

/// Build the candidate select for the claim.
pub fn mysql_claim_select_sql(table: &str, has_backend: bool, has_instance: bool) -> (r: String)
    ensures
        r@ == mysql_claim_select_spec(table@, has_backend, has_instance),
{
    String::from_str("SELECT task_id FROM ").concat(table).concat(
        "\n             WHERE status IN ('PENDING', 'FAILED')\n               AND retry_count < ?\n               AND (? = '' OR project_id = ?)\n               AND (next_retry_at IS NULL OR next_retry_at <= NOW(6))\n               ",
    ).concat(mysql_target_clause(has_backend, has_instance)).concat(
        "\n             ORDER BY created_at\n             LIMIT ?\n             FOR UPDATE SKIP LOCKED",
    )
}

/// One bound value of the claim statements.
#[derive(Debug, Clone)]
pub enum ClaimBind {
    Int(i64),
    Text(String),
}

/// What a bound value stands for.
pub enum ClaimBindView {
    Int(int),
    Text(Seq<char>),
}

pub open spec fn bind_view(b: ClaimBind) -> ClaimBindView {
    match b {
        ClaimBind::Int(n) => ClaimBindView::Int(n as int),
        ClaimBind::Text(s) => ClaimBindView::Text(s@),
    }
}

pub open spec fn binds_view(bs: Seq<ClaimBind>) -> Seq<ClaimBindView> {
    bs.map_values(|b: ClaimBind| bind_view(b))
}

/// The project a claim binds: the filter's, or the empty text for any.
pub open spec fn bound_project(f: ProjectionClaimFilter) -> Seq<char> {
    match f.project_id {
        Some(p) => p@,
        None => Seq::empty(),
    }
}

/// The candidate select's binds, in placeholder order: the retry cap, the
/// project twice, the present targets (backend first), the batch size.
pub open spec fn mysql_claim_binds_spec(f: ProjectionClaimFilter) -> Seq<ClaimBindView> {
    seq![
        ClaimBindView::Int(f.max_retries as int),
        ClaimBindView::Text(bound_project(f)),
        ClaimBindView::Text(bound_project(f)),
    ] + (match f.target_backend {
        Some(b) => seq![ClaimBindView::Text(b@)],
        None => Seq::empty(),
    }) + (match f.target_instance {
        Some(i) => seq![ClaimBindView::Text(i@)],
        None => Seq::empty(),
    }) + seq![ClaimBindView::Int(f.batch_size as int)]
}

/// The binds of the candidate select for `f`.
pub fn mysql_claim_binds(f: &ProjectionClaimFilter) -> (r: Vec<ClaimBind>)
    ensures
        binds_view(r@) =~= mysql_claim_binds_spec(*f),
{
    let project = match &f.project_id {
        Some(p) => p.clone(),
        None => String::new(),
    };
    let mut r: Vec<ClaimBind> = Vec::new();
    r.push(ClaimBind::Int(f.max_retries as i64));
    r.push(ClaimBind::Text(project.clone()));
    r.push(ClaimBind::Text(project));
    match &f.target_backend {
        Some(b) => r.push(ClaimBind::Text(b.clone())),
        None => {},
    }
    match &f.target_instance {
        Some(i) => r.push(ClaimBind::Text(i.clone())),
        None => {},
    }
    r.push(ClaimBind::Int(f.batch_size));
    r
}

/// The task the candidate select admits at `now_ms`: pending or failed,
/// under the retry cap, of the project when a non-empty one is given, due
/// for retry whatever its status, and of each present target.
pub open spec fn mysql_claim_eligible(t: ClaimCandidate, f: ProjectionClaimFilter, now_ms: i64) -> bool {
    &&& (t.status == ProjectionTaskStatus::Pending || t.status == ProjectionTaskStatus::Failed)
    &&& t.retry_count < f.max_retries
    &&& (bound_project(f).len() == 0 || t.project_id@ == bound_project(f))
    &&& (match t.next_retry_at_ms {
        Some(nra) => nra <= now_ms,
        None => true,
    })
    &&& (match f.target_backend {
        Some(b) => t.target_backend@ == b@,
        None => true,
    })
    &&& (match f.target_instance {
        Some(i) => t.target_instance@ == i@,
        None => true,
    })
}

// ── Flip and read-back ──────────────────────────────────────────────────────

/// `n` comma-separated `?` placeholders.
pub open spec fn qmarks(n: nat) -> Seq<char>
    decreases n,
{
    if n <= 1 {
        "?"@
    } else {
        qmarks((n - 1) as nat) + ",?"@
    }
}

fn qmarks_exec(n: usize) -> (r: String)
    requires
        n > 0,
    ensures
        r@ == qmarks(n as nat),
{
    let mut r = String::from_str("?");
    let mut i: usize = 1;
    while i < n
        invariant
            1 <= i <= n,
            r@ == qmarks(i as nat),
        decreases n - i,
    {
        r = r.concat(",?");
        i = i + 1;
    }
    r
}

/// The flip of the selected ids to `IN_PROGRESS`.
pub open spec fn mysql_claim_update_spec(table: Seq<char>, n: nat) -> Seq<char> {
    "UPDATE "@ + table
        + "\n             SET status = 'IN_PROGRESS', updated_at = NOW(6)\n             WHERE task_id IN ("@
        + qmarks(n) + ")"@
}

/// Build the flip of `n` claimed ids (bound in the order they were
/// selected).
pub fn mysql_claim_update_sql(table: &str, n: usize) -> (r: String)
    requires
        n > 0,
    ensures
        r@ == mysql_claim_update_spec(table@, n as nat),
{
    String::from_str("UPDATE ").concat(table).concat(
        "\n             SET status = 'IN_PROGRESS', updated_at = NOW(6)\n             WHERE task_id IN (",
    ).concat(qmarks_exec(n).as_str()).concat(")")
}

/// The read-back of the claimed rows, oldest first.
pub open spec fn mysql_claim_rows_spec(table: Seq<char>, n: nat) -> Seq<char> {
    "SELECT task_id, idempotency_key, project_id,\n                    target_backend, target_instance, projection_kind, resource_name,\n                    operation, source_row_key, target_options, source_payload,\n                    source_checksum, status, retry_count, last_error,\n                    created_at, updated_at, next_retry_at, completed_at\n             FROM "@
        + table + "\n             WHERE task_id IN ("@ + qmarks(n) + ")\n             ORDER BY created_at"@
}

/// Build the read-back of `n` claimed ids.
pub fn mysql_claim_rows_sql(table: &str, n: usize) -> (r: String)
    requires
        n > 0,
    ensures
        r@ == mysql_claim_rows_spec(table@, n as nat),
{
    String::from_str(
        "SELECT task_id, idempotency_key, project_id,\n                    target_backend, target_instance, projection_kind, resource_name,\n                    operation, source_row_key, target_options, source_payload,\n                    source_checksum, status, retry_count, last_error,\n                    created_at, updated_at, next_retry_at, completed_at\n             FROM ",
    ).concat(table).concat("\n             WHERE task_id IN (").concat(qmarks_exec(n).as_str()).concat(
        ")\n             ORDER BY created_at",
    )
}

/// The binds of the flip and of the read-back: the claimed ids, in order.
pub fn mysql_id_binds(ids: &Vec<String>) -> (r: Vec<ClaimBind>)
    ensures
        r@.len() == ids@.len(),
        forall|i: int| 0 <= i < ids@.len() ==> bind_view(#[trigger] r@[i]) == ClaimBindView::Text(ids@[i]@),
{
    let mut r: Vec<ClaimBind> = Vec::new();
    let mut i: usize = 0;
    while i < ids.len()
        invariant
            i <= ids@.len(),
            r@.len() == i,
            forall|j: int| 0 <= j < i ==> bind_view(#[trigger] r@[j]) == ClaimBindView::Text(ids@[j]@),
        decreases ids@.len() - i,
    {
        r.push(ClaimBind::Text(ids[i].clone()));
        i = i + 1;
    }
    r
}

// ── Laws ────────────────────────────────────────────────────────────────────

/// The candidate select has one placeholder per bind: three fixed ones,
/// one per present target, and the limit.
pub proof fn lemma_claim_binds_count(f: ProjectionClaimFilter)
    ensures
        mysql_claim_binds_spec(f).len() == 4 + (if f.target_backend is Some {
            1int
        } else {
            0
        }) + (if f.target_instance is Some {
            1int
        } else {
            0
        }),
        mysql_claim_binds_spec(f)[mysql_claim_binds_spec(f).len() - 1] == ClaimBindView::Int(
            f.batch_size as int,
        ),
{
}

/// The placeholder list of `n` ids is `?` followed by `n - 1` times `,?`:
/// `2n - 1` characters, a `?` at every even position and a comma at every
/// odd one, so exactly `n` placeholders.
pub proof fn lemma_qmarks_shape(n: nat)
    requires
        n > 0,
    ensures
        qmarks(n).len() == 2 * n - 1,
        forall|i: int| 0 <= i < qmarks(n).len() ==> #[trigger] qmarks(n)[i] == if i % 2 == 0 {
            '?'
        } else {
            ','
        },
    decreases n,
{
    reveal_strlit("?");
    reveal_strlit(",?");
    if n > 1 {
        lemma_qmarks_shape((n - 1) as nat);
        let prev = qmarks((n - 1) as nat);
        assert forall|i: int| 0 <= i < qmarks(n).len() implies #[trigger] qmarks(n)[i] == if i % 2
            == 0 {
            '?'
        } else {
            ','
        } by {
            if i < prev.len() {
                assert(qmarks(n)[i] == prev[i]);
            }
        }
    }
}

/// Where the MySQL predicate and the in-memory claim predicate meet: with
/// a non-empty project filter, a task without a retry time, or a failed
/// one, is claimed by one exactly when by the other. (A pending task whose
/// retry time lies ahead is the case where they part: MySQL skips it.)
pub proof fn lemma_mysql_claim_agrees(t: ClaimCandidate, f: ProjectionClaimFilter, now_ms: i64)
    requires
        f.project_id matches Some(p) && p@.len() > 0,
        t.next_retry_at_ms is None || t.status == ProjectionTaskStatus::Failed,
    ensures
        mysql_claim_eligible(t, f, now_ms) == crate::projection::claim_eligible_spec(t, f, now_ms),
{
}

} // verus!
