//! Projection-task decisions the scan-based stores take on the rows they
//! read back: which tasks a worker may claim and in what order, when a
//! claim batch is full, which status a failure may record, and the
//! per-status and read-your-writes counts.
use vstd::prelude::*;

use crate::selection::{
    is_oldest_first_selection, lemma_selection_unique, oldest_first_selection, truncate_to_limit,
};
use crate::status::{
    ProjectionTaskStatus, ProjectionTaskSummary, SystemStoreError, projection_status_parse_spec,
    projection_status_text, projection_summary_count, projection_summary_with,
    projection_summary_zero,
};
use crate::text::str_eq;

verus! {

/// The worker's claim request.
#[derive(Debug, Clone)]
pub struct ProjectionClaimFilter {
    /// Largest number of tasks to claim; `<= 0` claims nothing.
    pub batch_size: i64,
    /// Tasks that have already been retried this often are not claimed.
    pub max_retries: i32,
    pub project_id: Option<String>,
    pub target_backend: Option<String>,
    pub target_instance: Option<String>,
}

/// The fields of a projection-task row the claim decision reads.
#[derive(Debug, Clone)]
pub struct ClaimCandidate {
    pub status: ProjectionTaskStatus,
    pub retry_count: i32,
    pub project_id: String,
    pub target_backend: String,
    pub target_instance: String,
    /// Unix milliseconds before which a failed task is not retried.
    pub next_retry_at_ms: Option<i64>,
    /// Unix milliseconds of creation; claims go oldest first.
    pub created_at_ms: i64,
}

/// An optional equality filter admits `v`: absent, or equal.
pub open spec fn filter_admits(f: Option<String>, v: Seq<char>) -> bool {
    match f {
        Some(x) => x@ == v,
        None => true,
    }
}

/// A task a worker may claim at `now_ms`: pending or failed, under the
/// retry cap, matching every present filter, and — when failed — due for
/// its retry.
pub open spec fn claim_eligible_spec(t: ClaimCandidate, f: ProjectionClaimFilter, now_ms: i64) -> bool {
    &&& (t.status == ProjectionTaskStatus::Pending || t.status == ProjectionTaskStatus::Failed)
    &&& t.retry_count < f.max_retries
    &&& filter_admits(f.project_id, t.project_id@)
    &&& filter_admits(f.target_backend, t.target_backend@)
    &&& filter_admits(f.target_instance, t.target_instance@)
    &&& (t.status == ProjectionTaskStatus::Failed ==> match t.next_retry_at_ms {
        Some(nra) => nra <= now_ms,
        None => true,
    })
}

fn admits(f: &Option<String>, v: &str) -> (r: bool)
    ensures
        r == filter_admits(*f, v@),
{
    match f {
        Some(x) => str_eq(x.as_str(), v),
        None => true,
    }
}

/// Whether the task may be claimed at `now_ms`.
pub fn claim_eligible(t: &ClaimCandidate, f: &ProjectionClaimFilter, now_ms: i64) -> (r: bool)
    ensures
        r == claim_eligible_spec(*t, *f, now_ms),
{
    if !t.status.is_claimable() {
        return false;
    }
    if t.retry_count >= f.max_retries {
        return false;
    }
    if !admits(&f.project_id, t.project_id.as_str()) {
        return false;
    }
    if !admits(&f.target_backend, t.target_backend.as_str()) {
        return false;
    }
    if !admits(&f.target_instance, t.target_instance.as_str()) {
        return false;
    }
    if t.status == ProjectionTaskStatus::Failed {
        if let Some(nra) = t.next_retry_at_ms {
            if nra > now_ms {
                return false;
            }
        }
    }
    true
}

/// Creation times of the scanned rows.
pub open spec fn created_keys(tasks: Seq<ClaimCandidate>) -> Seq<i64> {
    tasks.map_values(|t: ClaimCandidate| t.created_at_ms)
}

/// Eligibility of the scanned rows.
pub open spec fn claim_flags(tasks: Seq<ClaimCandidate>, f: ProjectionClaimFilter, now_ms: i64) -> Seq<
    bool,
> {
    tasks.map_values(|t: ClaimCandidate| claim_eligible_spec(t, f, now_ms))
}

/// The claim candidates among the scanned rows: the positions of the
/// eligible tasks, oldest first, ties in scan order. A non-positive batch
/// size claims nothing.
pub fn claim_candidates(tasks: &Vec<ClaimCandidate>, f: &ProjectionClaimFilter, now_ms: i64) -> (r: Vec<usize>)
    ensures
        f.batch_size <= 0 ==> r@.len() == 0,
        f.batch_size > 0 ==> is_oldest_first_selection(
            created_keys(tasks@),
            claim_flags(tasks@, *f, now_ms),
            r@,
        ),
{
    if f.batch_size <= 0 {
        return Vec::new();
    }
    candidate_selection(tasks, f, now_ms)
}

/// The eligible tasks of a scan, oldest first, ties in scan order.
fn candidate_selection(tasks: &Vec<ClaimCandidate>, f: &ProjectionClaimFilter, now_ms: i64) -> (r: Vec<
    usize,
>)
    ensures
        is_oldest_first_selection(created_keys(tasks@), claim_flags(tasks@, *f, now_ms), r@),
{
    let n = tasks.len();
    let mut keys: Vec<i64> = Vec::new();
    let mut flags: Vec<bool> = Vec::new();
    let mut i: usize = 0;
    while i < n
        invariant
            n == tasks@.len(),
            i <= n,
            keys@ == created_keys(tasks@).take(i as int),
            flags@ == claim_flags(tasks@, *f, now_ms).take(i as int),
        decreases n - i,
    {
        keys.push(tasks[i].created_at_ms);
        flags.push(claim_eligible(&tasks[i], f, now_ms));
        assert(keys@ =~= created_keys(tasks@).take(i + 1));
        assert(flags@ =~= claim_flags(tasks@, *f, now_ms).take(i + 1));
        i = i + 1;
    }
    assert(keys@ =~= created_keys(tasks@));
    assert(flags@ =~= claim_flags(tasks@, *f, now_ms));
    oldest_first_selection(&keys, &flags)
}

/// How many of `n` candidates a claim with `batch_size` takes: at most the
/// batch size, none when it is not positive.
pub open spec fn batch_take(n: int, batch_size: i64) -> int {
    let cap: int = if batch_size < 0 {
        0
    } else {
        batch_size as int
    };
    if cap < n {
        cap
    } else {
        n
    }
}

/// The tasks one claim takes: the oldest `batch_size` of the eligible
/// tasks (ties in scan order), as positions in the scan.
pub fn claim_batch(tasks: &Vec<ClaimCandidate>, f: &ProjectionClaimFilter, now_ms: i64) -> (r: Vec<
    usize,
>)
    ensures
        r@.len() <= (if f.batch_size < 0 {
            0
        } else {
            f.batch_size as int
        }),
        exists|all: Seq<usize>|
            #![trigger is_oldest_first_selection(created_keys(tasks@), claim_flags(tasks@, *f, now_ms), all)]
            is_oldest_first_selection(created_keys(tasks@), claim_flags(tasks@, *f, now_ms), all)
                && r@ == all.take(batch_take(all.len() as int, f.batch_size)),
        forall|all: Seq<usize>|
            #[trigger] is_oldest_first_selection(
                created_keys(tasks@),
                claim_flags(tasks@, *f, now_ms),
                all,
            ) ==> r@ == all.take(batch_take(all.len() as int, f.batch_size)),
{
    let ghost keys = created_keys(tasks@);
    let ghost flags = claim_flags(tasks@, *f, now_ms);
    let n = tasks.len();
    let mut sel = candidate_selection(tasks, f, now_ms);
    let ghost all = sel@;
    assert(keys.len() == n);
    if f.batch_size <= 0 {
        sel = Vec::new();
    } else {
        truncate_to_limit(&mut sel, f.batch_size);
    }
    proof {
        assert(sel@ =~= all.take(batch_take(all.len() as int, f.batch_size)));
        assert forall|other: Seq<usize>|
            #[trigger] is_oldest_first_selection(keys, flags, other) implies sel@ == other.take(
            batch_take(other.len() as int, f.batch_size),
        ) by {
            lemma_selection_unique(keys, flags, all, other, false);
        }
    }
    sel
}

/// Whether a claim batch holding `claimed` tasks is full.
pub fn claim_batch_full(claimed: usize, batch_size: i64) -> (r: bool)
    ensures
        r == (claimed as int >= batch_size as int),
{
    if batch_size < 0 {
        return true;
    }
    (claimed as u64 as u128) >= (batch_size as u64 as u128)
}

/// A failed attempt may record only `FAILED` or `DEAD_LETTER`.
pub fn check_failure_status(new_status: ProjectionTaskStatus) -> (r: Result<(), SystemStoreError>)
    ensures
        r is Ok <==> (new_status == ProjectionTaskStatus::Failed || new_status
            == ProjectionTaskStatus::DeadLetter),
        r matches Err(SystemStoreError::InvalidInput(m)) ==> m@
            == "mark_projection_task_failed only accepts FAILED or DEAD_LETTER, got "@
            + projection_status_text(new_status),
        r is Err ==> r matches Err(SystemStoreError::InvalidInput(_)),
{
    match new_status {
        ProjectionTaskStatus::Failed => Ok(()),
        ProjectionTaskStatus::DeadLetter => Ok(()),
        _ => Err(
            SystemStoreError::InvalidInput(
                String::from_str(
                    "mark_projection_task_failed only accepts FAILED or DEAD_LETTER, got ",
                ).concat(new_status.as_str()),
            ),
        ),
    }
}

/// The task id an idempotent enqueue answers once it has tried to claim the
/// idempotency key: its own fresh id when the claim applied, else the id
/// already stored under the key (`existing`, as read back); `None` when the
/// key row vanished in between.
pub open spec fn enqueue_answer(applied: bool, new_id: u128, existing: Option<u128>) -> Option<u128> {
    if applied {
        Some(new_id)
    } else {
        existing
    }
}

/// Answer an idempotent enqueue after the key claim; a vanished key row is
/// an I/O error.
pub fn claimed_task_id(applied: bool, new_id: u128, existing: Option<u128>) -> (r: Result<
    u128,
    SystemStoreError,
>)
    ensures
        r is Ok <==> enqueue_answer(applied, new_id, existing) is Some,
        r matches Ok(v) ==> enqueue_answer(applied, new_id, existing) == Some(v),
        r matches Err(e) ==> (e matches SystemStoreError::Io { backend: b, source } && b@
            == "cassandra"@ && source@ == "enqueue_projection_task"@ + ": "@
            + "idempotency row vanished after not-applied LWT"@),
{
    if applied {
        return Ok(new_id);
    }
    match existing {
        Some(id) => Ok(id),
        None => Err(
            crate::cassandra::cass_err(
                "enqueue_projection_task",
                "idempotency row vanished after not-applied LWT",
            ),
        ),
    }
}

/// Decode the status column of a task row read from `backend`.
pub fn projection_status_of_row(text: &str, backend: &str) -> (r: Result<
    ProjectionTaskStatus,
    SystemStoreError,
>)
    ensures
        projection_status_parse_spec(text@) matches Some(st) ==> r == Ok::<
            ProjectionTaskStatus,
            SystemStoreError,
        >(st),
        projection_status_parse_spec(text@) is None ==> (r matches Err(
            SystemStoreError::InvalidInput(m),
        ) && m@ == "unknown projection status '"@ + text@ + "' in "@ + backend@ + " row"@),
{
    match ProjectionTaskStatus::parse(text) {
        Some(st) => Ok(st),
        None => Err(
            SystemStoreError::InvalidInput(
                String::from_str("unknown projection status '").concat(text).concat("' in ").concat(
                    backend,
                ).concat(" row"),
            ),
        ),
    }
}

// ── Counts over scanned rows ────────────────────────────────────────────────

/// Per-status counts of `statuses`, or `None` when one is not a projection
/// status.
pub open spec fn count_statuses(statuses: Seq<Seq<char>>) -> Option<ProjectionTaskSummary>
    decreases statuses.len(),
{
    if statuses.len() == 0 {
        Some(projection_summary_zero())
    } else {
        match count_statuses(statuses.drop_last()) {
            None => None,
            Some(s) => match projection_status_parse_spec(statuses.last()) {
                None => None,
                Some(st) => Some(
                    projection_summary_with(s, st, (projection_summary_count(s, st) + 1) as i64),
                ),
            },
        }
    }
}

/// The first status of `statuses` that is not a projection status.
pub open spec fn first_unknown(statuses: Seq<Seq<char>>) -> Seq<char>
    decreases statuses.len(),
{
    if statuses.len() == 0 {
        Seq::empty()
    } else if count_statuses(statuses.drop_last()) is None {
        first_unknown(statuses.drop_last())
    } else {
        statuses.last()
    }
}

pub open spec fn string_views(v: Seq<String>) -> Seq<Seq<char>> {
    v.map_values(|s: String| s@)
}

proof fn lemma_counts_bounded(statuses: Seq<Seq<char>>)
    requires
        statuses.len() < i64::MAX,
    ensures
        count_statuses(statuses) matches Some(s) ==> 0 <= s.pending <= statuses.len() && 0
            <= s.in_progress <= statuses.len() && 0 <= s.completed <= statuses.len() && 0
            <= s.failed <= statuses.len() && 0 <= s.dead_letter <= statuses.len(),
    decreases statuses.len(),
{
    if statuses.len() > 0 {
        lemma_counts_bounded(statuses.drop_last());
    }
}

/// Fold the status column of a full-table scan into per-status counts; an
/// unknown status is an error naming it and the backend.
pub fn summary_of_statuses(statuses: &Vec<String>, backend: &str) -> (r: Result<
    ProjectionTaskSummary,
    SystemStoreError,
>)
    requires
        statuses@.len() < i64::MAX,
    ensures
        count_statuses(string_views(statuses@)) matches Some(s) ==> r == Ok::<
            ProjectionTaskSummary,
            SystemStoreError,
        >(s),
        count_statuses(string_views(statuses@)) is None ==> (r matches Err(
            SystemStoreError::InvalidInput(m),
        ) && m@ == "unknown projection status '"@ + first_unknown(string_views(statuses@))
            + "' in "@ + backend@ + " summary"@),
{
    let ghost sv = string_views(statuses@);
    let n = statuses.len();
    let mut s = ProjectionTaskSummary::default();
    let mut i: usize = 0;
    while i < n
        invariant
            n == statuses@.len(),
            n < i64::MAX,
            i <= n,
            sv == string_views(statuses@),
            count_statuses(sv.take(i as int)) == Some(s),
        decreases n - i,
    {
        let status = statuses[i].as_str();
        assert(sv.take(i + 1).drop_last() =~= sv.take(i as int));
        assert(sv.take(i + 1).last() == status@);
        proof {
            lemma_counts_bounded(sv.take(i as int));
        }
        match ProjectionTaskStatus::parse(status) {
            Some(ProjectionTaskStatus::Pending) => s.pending = s.pending + 1,
            Some(ProjectionTaskStatus::InProgress) => s.in_progress = s.in_progress + 1,
            Some(ProjectionTaskStatus::Completed) => s.completed = s.completed + 1,
            Some(ProjectionTaskStatus::Failed) => s.failed = s.failed + 1,
            Some(ProjectionTaskStatus::DeadLetter) => s.dead_letter = s.dead_letter + 1,
            None => {
                proof {
                    assert(count_statuses(sv.take(i + 1)) is None);
                    lemma_unknown_persists(sv, i as int + 1);
                }
                return Err(
                    SystemStoreError::InvalidInput(
                        String::from_str("unknown projection status '").concat(status).concat(
                            "' in ",
                        ).concat(backend).concat(" summary"),
                    ),
                );
            },
        }
        i = i + 1;
    }
    assert(sv.take(n as int) =~= sv);
    Ok(s)
}

/// Once a prefix holds an unknown status, the whole list fails on the same
/// one.
proof fn lemma_unknown_persists(sv: Seq<Seq<char>>, k: int)
    requires
        0 < k <= sv.len(),
        count_statuses(sv.take(k)) is None,
        count_statuses(sv.take(k - 1)) is Some,
    ensures
        count_statuses(sv) is None,
        first_unknown(sv) == sv[k - 1],
    decreases sv.len() - k,
{
    if k == sv.len() {
        assert(sv.take(k) =~= sv);
        assert(sv.take(k).drop_last() =~= sv.take(k - 1));
    } else {
        assert(sv.take(k + 1).drop_last() =~= sv.take(k));
        lemma_unknown_persists_step(sv, k);
    }
}

proof fn lemma_unknown_persists_step(sv: Seq<Seq<char>>, k: int)
    requires
        0 < k < sv.len(),
        count_statuses(sv.take(k)) is None,
        count_statuses(sv.take(k - 1)) is Some,
    ensures
        count_statuses(sv) is None,
        first_unknown(sv) == sv[k - 1],
    decreases sv.len() - k,
{
    assert(first_unknown(sv.take(k)) == sv[k - 1]) by {
        assert(sv.take(k).drop_last() =~= sv.take(k - 1));
        assert(sv.take(k).last() == sv[k - 1]);
    }
    lemma_unknown_tail(sv, k);
}

proof fn lemma_unknown_tail(sv: Seq<Seq<char>>, j: int)
    requires
        0 < j <= sv.len(),
        count_statuses(sv.take(j)) is None,
    ensures
        count_statuses(sv) is None,
        first_unknown(sv) == first_unknown(sv.take(j)),
    decreases sv.len() - j,
{
    if j == sv.len() {
        assert(sv.take(j) =~= sv);
    } else {
        assert(sv.take(j + 1).drop_last() =~= sv.take(j));
        lemma_unknown_tail(sv, j + 1);
    }
}

/// Read-your-writes fence count: among the tasks found for the fence's
/// idempotency keys (`None` when a key has no task), those not yet
/// `COMPLETED`. Failed and dead-lettered tasks are not projected yet and
/// still count.
pub open spec fn pending_fence_count_spec(statuses: Seq<Option<Seq<char>>>) -> int
    decreases statuses.len(),
{
    if statuses.len() == 0 {
        0
    } else {
        pending_fence_count_spec(statuses.drop_last()) + match statuses.last() {
            Some(st) => if projection_status_parse_spec(st) == Some(ProjectionTaskStatus::Completed) {
                0int
            } else {
                1int
            },
            None => 0int,
        }
    }
}

pub open spec fn opt_string_views(v: Seq<Option<String>>) -> Seq<Option<Seq<char>>> {
    v.map_values(
        |o: Option<String>|
            match o {
                Some(s) => Some(s@),
                None => None,
            },
    )
}

proof fn lemma_fence_count_bounded(statuses: Seq<Option<Seq<char>>>)
    ensures
        0 <= pending_fence_count_spec(statuses) <= statuses.len(),
    decreases statuses.len(),
{
    if statuses.len() > 0 {
        lemma_fence_count_bounded(statuses.drop_last());
    }
}

/// Count the fence's tasks that are not yet completed.
pub fn pending_fence_count(statuses: &Vec<Option<String>>) -> (r: i64)
    requires
        statuses@.len() < i64::MAX,
    ensures
        r == pending_fence_count_spec(opt_string_views(statuses@)),
{
    let ghost sv = opt_string_views(statuses@);
    let n = statuses.len();
    let mut pending: i64 = 0;
    let mut i: usize = 0;
    while i < n
        invariant
            n == statuses@.len(),
            n < i64::MAX,
            i <= n,
            sv == opt_string_views(statuses@),
            pending == pending_fence_count_spec(sv.take(i as int)),
        decreases n - i,
    {
        assert(sv.take(i + 1).drop_last() =~= sv.take(i as int));
        proof {
            lemma_fence_count_bounded(sv.take(i as int));
        }
        match &statuses[i] {
            Some(st) => {
                let settled = match ProjectionTaskStatus::parse(st.as_str()) {
                    Some(ProjectionTaskStatus::Completed) => true,
                    _ => false,
                };
                if !settled {
                    pending = pending + 1;
                }
            },
            None => {},
        }
        i = i + 1;
    }
    assert(sv.take(n as int) =~= sv);
    pending
}

/// A dead-lettered task of the requested backend (any backend when none is
/// named) is requeued.
pub fn requeue_dead_letter_applies(
    status: ProjectionTaskStatus,
    task_backend: &str,
    target_backend: Option<&str>,
) -> (r: bool)
    ensures
        r == (status == ProjectionTaskStatus::DeadLetter && match target_backend {
            Some(b) => b@ == task_backend@,
            None => true,
        }),
{
    if status != ProjectionTaskStatus::DeadLetter {
        return false;
    }
    match target_backend {
        Some(b) => str_eq(task_backend, b),
        None => true,
    }
}

/// An in-progress task untouched since before `cutoff_ms` is stale and goes
/// back to pending.
pub fn is_stale_in_progress(status: ProjectionTaskStatus, updated_at_ms: i64, cutoff_ms: i64) -> (r: bool)
    ensures
        r == (status == ProjectionTaskStatus::InProgress && updated_at_ms < cutoff_ms),
{
    status == ProjectionTaskStatus::InProgress && updated_at_ms < cutoff_ms
}

// ── Laws ────────────────────────────────────────────────────────────────────

/// Claiming never hands out a task that is in progress, completed or dead
/// lettered, nor one at or over the retry cap, nor a failed one before its
/// retry time.
pub proof fn lemma_claim_respects_lifecycle(t: ClaimCandidate, f: ProjectionClaimFilter, now_ms: i64)
    requires
        claim_eligible_spec(t, f, now_ms),
    ensures
        t.status != ProjectionTaskStatus::InProgress,
        t.status != ProjectionTaskStatus::Completed,
        t.status != ProjectionTaskStatus::DeadLetter,
        t.retry_count < f.max_retries,
        t.status == ProjectionTaskStatus::Failed && t.next_retry_at_ms is Some
            ==> t.next_retry_at_ms->0 <= now_ms,
{
}

/// Enqueueing is idempotent on the key: a repeat enqueue, whose claim of
/// the key does not apply, reads back the id the first enqueue stored and
/// answers that same id, whatever fresh id it minted itself.
pub proof fn lemma_reenqueue_returns_same_id(first_id: u128, repeat_fresh_id: u128)
    ensures
        enqueue_answer(false, repeat_fresh_id, enqueue_answer(true, first_id, None))
            == enqueue_answer(true, first_id, None),
        enqueue_answer(true, first_id, None) == Some(first_id),
{
}

/// A task that is due stays due as time passes.
pub proof fn lemma_claim_eligibility_monotone_in_time(
    t: ClaimCandidate,
    f: ProjectionClaimFilter,
    now_ms: i64,
    later_ms: i64,
)
    requires
        claim_eligible_spec(t, f, now_ms),
        now_ms <= later_ms,
    ensures
        claim_eligible_spec(t, f, later_ms),
{
}

/// Counting a scan: the per-status counts add up to the number of rows.
pub proof fn lemma_summary_counts_every_row(statuses: Seq<Seq<char>>)
    requires
        statuses.len() < i64::MAX,
        count_statuses(statuses) is Some,
    ensures
        count_statuses(statuses)->0.pending + count_statuses(statuses)->0.in_progress
            + count_statuses(statuses)->0.completed + count_statuses(statuses)->0.failed
            + count_statuses(statuses)->0.dead_letter == statuses.len(),
    decreases statuses.len(),
{
    if statuses.len() > 0 {
        lemma_summary_counts_every_row(statuses.drop_last());
        lemma_counts_bounded(statuses.drop_last());
    }
}

/// Only a completed task settles a read-your-writes fence: the fence count
/// is the number of found tasks that are not completed, so it is zero
/// exactly when every found task has completed.
pub proof fn lemma_fence_clears_only_when_completed(statuses: Seq<Option<Seq<char>>>)
    ensures
        pending_fence_count_spec(statuses) == 0 <==> forall|i: int|
            0 <= i < statuses.len() && #[trigger] statuses[i] is Some ==> projection_status_parse_spec(
                statuses[i]->0,
            ) == Some(ProjectionTaskStatus::Completed),
    decreases statuses.len(),
{
    if statuses.len() > 0 {
        let init = statuses.drop_last();
        let last = statuses.len() - 1;
        lemma_fence_clears_only_when_completed(init);
        lemma_fence_count_bounded(init);
        assert(statuses[last] == statuses.last());
        if pending_fence_count_spec(statuses) == 0 {
            assert forall|i: int|
                0 <= i < statuses.len() && #[trigger] statuses[i] is Some implies projection_status_parse_spec(
                statuses[i]->0,
            ) == Some(ProjectionTaskStatus::Completed) by {
                if i < last {
                    assert(init[i] == statuses[i]);
                }
            }
        } else {
            if pending_fence_count_spec(init) != 0 {
                let i = choose|i: int|
                    0 <= i < init.len() && #[trigger] init[i] is Some && projection_status_parse_spec(
                        init[i]->0,
                    ) != Some(ProjectionTaskStatus::Completed);
                assert(init[i] == statuses[i]);
            } else {
                assert(statuses[last] is Some);
            }
        }
    }
}

} // verus!
