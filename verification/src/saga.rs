//! Saga-recovery decisions the scan-based stores take on the rows they read
//! back: which sagas the recovery worker claims and in what order, what a
//! claimed stale saga becomes, which sagas may be re-compensated, and the
//! per-status counts of a full scan.
use vstd::prelude::*;

use crate::selection::{is_oldest_first_selection, oldest_first_selection, truncate_to_limit};
use crate::status::{
    SagaStatus, SagaSummary, SystemStoreError, saga_status_parse_spec, saga_summary_count,
    saga_summary_with, saga_summary_zero,
};

verus! {

/// The fields of a saga row the recovery claim reads.
#[derive(Debug, Clone, Copy)]
pub struct RecoveryCandidate {
    pub status: SagaStatus,
    /// Unix milliseconds of the last status change; claims go oldest first.
    pub updated_at_ms: i64,
}

/// A saga the recovery worker takes over: indeterminate and in-doubt sagas
/// always, in-progress ones once untouched since before `cutoff_ms`.
pub open spec fn is_recoverable_spec(status: SagaStatus, updated_at_ms: i64, cutoff_ms: i64) -> bool {
    status == SagaStatus::Indeterminate || status == SagaStatus::InDoubt || (status
        == SagaStatus::InProgress && updated_at_ms < cutoff_ms)
}

/// Whether the saga is recoverable at `cutoff_ms`.
pub fn is_recoverable(status: SagaStatus, updated_at_ms: i64, cutoff_ms: i64) -> (r: bool)
    ensures
        r == is_recoverable_spec(status, updated_at_ms, cutoff_ms),
{
    match status {
        SagaStatus::Indeterminate => true,
        SagaStatus::InDoubt => true,
        SagaStatus::InProgress => updated_at_ms < cutoff_ms,
        _ => false,
    }
}

/// An in-progress saga untouched since before `cutoff_ms`: the startup
/// sweep marks it indeterminate.
pub fn is_stale_in_progress(status: SagaStatus, updated_at_ms: i64, cutoff_ms: i64) -> (r: bool)
    ensures
        r == (status == SagaStatus::InProgress && updated_at_ms < cutoff_ms),
{
    status == SagaStatus::InProgress && updated_at_ms < cutoff_ms
}

/// The staleness cutoff `now - stale_after`; a duration past what a signed
/// millisecond count holds counts as zero.
pub fn stale_cutoff_ms(now_ms: i64, stale_after_ms: u64) -> (r: i64)
    requires
        stale_after_ms <= i64::MAX ==> now_ms - stale_after_ms >= i64::MIN,
    ensures
        r == if stale_after_ms <= i64::MAX {
            now_ms - stale_after_ms
        } else {
            now_ms as int
        },
{
    if stale_after_ms > i64::MAX as u64 {
        now_ms
    } else {
        now_ms - stale_after_ms as i64
    }
}

/// Update times of the scanned sagas.
pub open spec fn updated_keys(sagas: Seq<RecoveryCandidate>) -> Seq<i64> {
    sagas.map_values(|s: RecoveryCandidate| s.updated_at_ms)
}

/// Recoverability of the scanned sagas.
pub open spec fn recoverable_flags(sagas: Seq<RecoveryCandidate>, cutoff_ms: i64) -> Seq<bool> {
    sagas.map_values(|s: RecoveryCandidate| is_recoverable_spec(s.status, s.updated_at_ms, cutoff_ms))
}

/// At least one saga is claimed per call, at most `limit`.
pub open spec fn claim_cap(limit: i64) -> int {
    if limit < 1 {
        1
    } else {
        limit as int
    }
}

/// The sagas the recovery worker claims from a scan: positions of the
/// recoverable ones, oldest update first (ties in scan order), cut to
/// `max(limit, 1)`.
pub fn recovery_candidates(sagas: &Vec<RecoveryCandidate>, cutoff_ms: i64, limit: i64) -> (r: Vec<
    usize,
>)
    ensures
        exists|all: Seq<usize>|
            #![trigger is_oldest_first_selection(updated_keys(sagas@), recoverable_flags(sagas@, cutoff_ms), all)]
            is_oldest_first_selection(updated_keys(sagas@), recoverable_flags(sagas@, cutoff_ms), all)
                && r@ == all.take(
                if claim_cap(limit) < all.len() {
                    claim_cap(limit)
                } else {
                    all.len() as int
                },
            ),
{
    let n = sagas.len();
    let mut keys: Vec<i64> = Vec::new();
    let mut flags: Vec<bool> = Vec::new();
    let mut i: usize = 0;
    while i < n
        invariant
            n == sagas@.len(),
            i <= n,
            keys@ == updated_keys(sagas@).take(i as int),
            flags@ == recoverable_flags(sagas@, cutoff_ms).take(i as int),
        decreases n - i,
    {
        keys.push(sagas[i].updated_at_ms);
        flags.push(is_recoverable(sagas[i].status, sagas[i].updated_at_ms, cutoff_ms));
        assert(keys@ =~= updated_keys(sagas@).take(i + 1));
        assert(flags@ =~= recoverable_flags(sagas@, cutoff_ms).take(i + 1));
        i = i + 1;
    }
    assert(keys@ =~= updated_keys(sagas@));
    assert(flags@ =~= recoverable_flags(sagas@, cutoff_ms));
    let mut sel = oldest_first_selection(&keys, &flags);
    let ghost all = sel@;
    truncate_to_limit(&mut sel, limit);
    assert(sel@ =~= all.take(
        if claim_cap(limit) < all.len() {
            claim_cap(limit)
        } else {
            all.len() as int
        },
    ));
    sel
}

/// What a claimed saga is handed to the worker as: a stale in-progress
/// saga becomes indeterminate when the conditional flip applied and is
/// skipped (another worker won it) when it did not; any other claimed saga
/// keeps its status.
pub fn claimed_status(status: SagaStatus, flip_applied: bool) -> (r: Option<SagaStatus>)
    ensures
        status == SagaStatus::InProgress ==> r == if flip_applied {
            Some(SagaStatus::Indeterminate)
        } else {
            None::<SagaStatus>
        },
        status != SagaStatus::InProgress ==> r == Some(status),
{
    match status {
        SagaStatus::InProgress => if flip_applied {
            Some(SagaStatus::Indeterminate)
        } else {
            None
        },
        _ => Some(status),
    }
}

/// The statuses from which a saga may be re-compensated.
pub open spec fn is_retryable_spec(status: SagaStatus) -> bool {
    status == SagaStatus::FailedCompensation || status == SagaStatus::ManualReview
}

/// The refusal of a re-compensation request.
pub open spec fn not_retryable_message(saga_id: Seq<char>) -> Seq<char> {
    "saga "@ + saga_id
        + " is not in a retryable state (must be failed_compensation or manual_review)"@
}

/// Guard of a re-compensation request on the saga's current status (`None`
/// when no such saga was found).
pub fn check_recompensation(current: Option<SagaStatus>, saga_id: &str) -> (r: Result<
    (),
    SystemStoreError,
>)
    ensures
        r is Ok <==> (current matches Some(st) && is_retryable_spec(st)),
        r is Err ==> (r matches Err(SystemStoreError::InvalidInput(m)) && m@ == not_retryable_message(
            saga_id@,
        )),
{
    let ok = match current {
        Some(SagaStatus::FailedCompensation) => true,
        Some(SagaStatus::ManualReview) => true,
        _ => false,
    };
    if ok {
        Ok(())
    } else {
        Err(
            SystemStoreError::InvalidInput(
                String::from_str("saga ").concat(saga_id).concat(
                    " is not in a retryable state (must be failed_compensation or manual_review)",
                ),
            ),
        )
    }
}

/// The retry count a granted re-compensation writes.
pub fn next_retry_count(current: i32) -> (r: i32)
    requires
        current < i32::MAX,
    ensures
        r == current + 1,
{
    current + 1
}

/// Decode the status column of a saga row read from `backend`.
pub fn saga_status_of_row(text: &str, backend: &str) -> (r: Result<SagaStatus, SystemStoreError>)
    ensures
        saga_status_parse_spec(text@) matches Some(st) ==> r == Ok::<SagaStatus, SystemStoreError>(
            st,
        ),
        saga_status_parse_spec(text@) is None ==> (r matches Err(SystemStoreError::InvalidInput(m))
            && m@ == "unknown saga status '"@ + text@ + "' in "@ + backend@ + " row"@),
{
    match SagaStatus::parse(text) {
        Some(st) => Ok(st),
        None => Err(
            SystemStoreError::InvalidInput(
                String::from_str("unknown saga status '").concat(text).concat("' in ").concat(
                    backend,
                ).concat(" row"),
            ),
        ),
    }
}

// ── Counts over scanned rows ────────────────────────────────────────────────

/// Per-status counts of `statuses`, or `None` when one is not a saga status.
pub open spec fn count_saga_statuses(statuses: Seq<Seq<char>>) -> Option<SagaSummary>
    decreases statuses.len(),
{
    if statuses.len() == 0 {
        Some(saga_summary_zero())
    } else {
        match count_saga_statuses(statuses.drop_last()) {
            None => None,
            Some(s) => match saga_status_parse_spec(statuses.last()) {
                None => None,
                Some(st) => Some(saga_summary_with(s, st, (saga_summary_count(s, st) + 1) as i64)),
            },
        }
    }
}

/// The first status of `statuses` that is not a saga status.
pub open spec fn first_unknown_saga(statuses: Seq<Seq<char>>) -> Seq<char>
    decreases statuses.len(),
{
    if statuses.len() == 0 {
        Seq::empty()
    } else if count_saga_statuses(statuses.drop_last()) is None {
        first_unknown_saga(statuses.drop_last())
    } else {
        statuses.last()
    }
}

pub open spec fn saga_string_views(v: Seq<String>) -> Seq<Seq<char>> {
    v.map_values(|s: String| s@)
}

proof fn lemma_saga_counts_bounded(statuses: Seq<Seq<char>>)
    requires
        statuses.len() < i64::MAX,
    ensures
        count_saga_statuses(statuses) matches Some(s) ==> forall|st: SagaStatus|
            0 <= #[trigger] saga_summary_count(s, st) <= statuses.len(),
    decreases statuses.len(),
{
    if statuses.len() > 0 {
        let init = statuses.drop_last();
        lemma_saga_counts_bounded(init);
        if let Some(s) = count_saga_statuses(statuses) {
            let s0 = count_saga_statuses(init)->0;
            let st0 = saga_status_parse_spec(statuses.last())->0;
            assert(0 <= saga_summary_count(s0, st0) <= init.len());
            assert forall|st: SagaStatus| 0 <= #[trigger] saga_summary_count(s, st) <= statuses.len() by {
                assert(0 <= saga_summary_count(s0, st) <= init.len());
            }
        }
    }
}

proof fn lemma_saga_unknown_tail(sv: Seq<Seq<char>>, j: int)
    requires
        0 < j <= sv.len(),
        count_saga_statuses(sv.take(j)) is None,
    ensures
        count_saga_statuses(sv) is None,
        first_unknown_saga(sv) == first_unknown_saga(sv.take(j)),
    decreases sv.len() - j,
{
    if j == sv.len() {
        assert(sv.take(j) =~= sv);
    } else {
        assert(sv.take(j + 1).drop_last() =~= sv.take(j));
        lemma_saga_unknown_tail(sv, j + 1);
    }
}

/// Fold the status column of a full saga scan into per-status counts; an
/// unknown status is an error naming it and the backend.
pub fn saga_summary_of_statuses(statuses: &Vec<String>, backend: &str) -> (r: Result<
    SagaSummary,
    SystemStoreError,
>)
    requires
        statuses@.len() < i64::MAX,
    ensures
        count_saga_statuses(saga_string_views(statuses@)) matches Some(s) ==> r == Ok::<
            SagaSummary,
            SystemStoreError,
        >(s),
        count_saga_statuses(saga_string_views(statuses@)) is None ==> (r matches Err(
            SystemStoreError::InvalidInput(m),
        ) && m@ == "unknown saga status '"@ + first_unknown_saga(saga_string_views(statuses@))
            + "' in "@ + backend@ + " summary"@),
{
    let ghost sv = saga_string_views(statuses@);
    let n = statuses.len();
    let mut s = SagaSummary::default();
    let mut i: usize = 0;
    while i < n
        invariant
            n == statuses@.len(),
            n < i64::MAX,
            i <= n,
            sv == saga_string_views(statuses@),
            count_saga_statuses(sv.take(i as int)) == Some(s),
        decreases n - i,
    {
        let status = statuses[i].as_str();
        assert(sv.take(i + 1).drop_last() =~= sv.take(i as int));
        assert(sv.take(i + 1).last() == status@);
        proof {
            lemma_saga_counts_bounded(sv.take(i as int));
        }
        match SagaStatus::parse(status) {
            Some(st) => {
                proof {
                    assert(0 <= saga_summary_count(s, st) <= i);
                }
                match st {
                    SagaStatus::Indeterminate => s.indeterminate = s.indeterminate + 1,
                    SagaStatus::InProgress => s.in_progress = s.in_progress + 1,
                    SagaStatus::Pending => s.pending = s.pending + 1,
                    SagaStatus::Committed => s.committed = s.committed + 1,
                    SagaStatus::Compensated => s.compensated = s.compensated + 1,
                    SagaStatus::Failed => s.failed = s.failed + 1,
                    SagaStatus::InDoubt => s.in_doubt = s.in_doubt + 1,
                    SagaStatus::FailedCompensation => s.failed_compensation = s.failed_compensation
                        + 1,
                    SagaStatus::ManualReview => s.manual_review = s.manual_review + 1,
                }
            },
            None => {
                proof {
                    assert(count_saga_statuses(sv.take(i + 1)) is None);
                    assert(first_unknown_saga(sv.take(i + 1)) == status@);
                    lemma_saga_unknown_tail(sv, i as int + 1);
                }
                return Err(
                    SystemStoreError::InvalidInput(
                        String::from_str("unknown saga status '").concat(status).concat(
                            "' in ",
                        ).concat(backend).concat(" summary"),
                    ),
                );
            },
        }
        i = i + 1;
    }
    assert(sv.take(n as int) =~= sv);
    Ok(s)
}

// ── Laws ────────────────────────────────────────────────────────────────────

/// Recovery never takes over a saga that has settled (committed,
/// compensated, failed, failed compensation, manual review) nor a pending
/// one, nor an in-progress saga that was touched at or after the cutoff.
pub proof fn lemma_recovery_skips_settled(status: SagaStatus, updated_at_ms: i64, cutoff_ms: i64)
    requires
        is_recoverable_spec(status, updated_at_ms, cutoff_ms),
    ensures
        status == SagaStatus::Indeterminate || status == SagaStatus::InDoubt
            || status == SagaStatus::InProgress,
        status == SagaStatus::InProgress ==> updated_at_ms < cutoff_ms,
{
}

/// An in-progress saga that is stale at one cutoff stays stale at any later
/// one.
pub proof fn lemma_recoverable_monotone_in_cutoff(
    status: SagaStatus,
    updated_at_ms: i64,
    cutoff_ms: i64,
    later_cutoff_ms: i64,
)
    requires
        is_recoverable_spec(status, updated_at_ms, cutoff_ms),
        cutoff_ms <= later_cutoff_ms,
    ensures
        is_recoverable_spec(status, updated_at_ms, later_cutoff_ms),
{
}

/// Every saga the recovery claim hands out is indeterminate or in doubt:
/// stale in-progress sagas are flipped first, and lost flips are skipped.
pub proof fn lemma_claimed_sagas_are_unsettled(
    status: SagaStatus,
    updated_at_ms: i64,
    cutoff_ms: i64,
    flip_applied: bool,
    out: SagaStatus,
)
    requires
        is_recoverable_spec(status, updated_at_ms, cutoff_ms),
        (if status == SagaStatus::InProgress {
            if flip_applied {
                Some(SagaStatus::Indeterminate)
            } else {
                None::<SagaStatus>
            }
        } else {
            Some(status)
        }) == Some(out),
    ensures
        out == SagaStatus::Indeterminate || out == SagaStatus::InDoubt,
{
}

/// Counting a saga scan: the per-status counts add up to the number of rows.
pub proof fn lemma_saga_summary_counts_every_row(statuses: Seq<Seq<char>>)
    requires
        statuses.len() < i64::MAX,
        count_saga_statuses(statuses) is Some,
    ensures
        crate::status::saga_summary_total(count_saga_statuses(statuses)->0) == statuses.len(),
    decreases statuses.len(),
{
    if statuses.len() > 0 {
        lemma_saga_summary_counts_every_row(statuses.drop_last());
        lemma_saga_counts_bounded(statuses.drop_last());
    }
}

/// Indeterminate and in-doubt sagas are recoverable whatever their update
/// time and the cutoff; settled and pending sagas never are; an in-progress
/// saga is recoverable exactly when it was last touched before the cutoff.
pub proof fn lemma_recoverable_by_status(status: SagaStatus, updated_at_ms: i64, cutoff_ms: i64)
    ensures
        status == SagaStatus::Indeterminate ==> is_recoverable_spec(status, updated_at_ms, cutoff_ms),
        status == SagaStatus::InDoubt ==> is_recoverable_spec(status, updated_at_ms, cutoff_ms),
        status == SagaStatus::InProgress ==> (is_recoverable_spec(status, updated_at_ms, cutoff_ms)
            <==> updated_at_ms < cutoff_ms),
        status == SagaStatus::Pending || status == SagaStatus::Committed || status
            == SagaStatus::Compensated || status == SagaStatus::Failed || status
            == SagaStatus::FailedCompensation || status == SagaStatus::ManualReview
            ==> !is_recoverable_spec(status, updated_at_ms, cutoff_ms),
{
}

/// What a recovery claim returns: positions of sagas that are indeterminate,
/// in doubt, or in progress and untouched since before the cutoff; and when
/// the claim is not cut short by its cap, every indeterminate or in-doubt
/// saga of the scan is among them, whenever it was last updated.
pub proof fn lemma_recovery_claims_unsettled_sagas(
    sagas: Seq<RecoveryCandidate>,
    cutoff_ms: i64,
    limit: i64,
    all: Seq<usize>,
    r: Seq<usize>,
)
    requires
        is_oldest_first_selection(updated_keys(sagas), recoverable_flags(sagas, cutoff_ms), all),
        r == all.take(
            if claim_cap(limit) < all.len() {
                claim_cap(limit)
            } else {
                all.len() as int
            },
        ),
    ensures
        forall|k: int|
            0 <= k < r.len() ==> (#[trigger] r[k] as int) < sagas.len() && ({
                let s = sagas[r[k] as int];
                s.status == SagaStatus::Indeterminate || s.status == SagaStatus::InDoubt || (
                s.status == SagaStatus::InProgress && s.updated_at_ms < cutoff_ms)
            }),
        r.len() < claim_cap(limit) ==> forall|j: int|
            0 <= j < sagas.len() && ((#[trigger] sagas[j]).status == SagaStatus::Indeterminate
                || sagas[j].status == SagaStatus::InDoubt) ==> r.contains(j as usize),
{
    assert forall|k: int| 0 <= k < r.len() implies (#[trigger] r[k] as int) < sagas.len() && ({
        let s = sagas[r[k] as int];
        s.status == SagaStatus::Indeterminate || s.status == SagaStatus::InDoubt || (s.status
            == SagaStatus::InProgress && s.updated_at_ms < cutoff_ms)
    }) by {
        assert(r[k] == all[k]);
        assert(recoverable_flags(sagas, cutoff_ms)[all[k] as int]);
    }
    if r.len() < claim_cap(limit) {
        assert(r =~= all);
        assert forall|j: int|
            0 <= j < sagas.len() && ((#[trigger] sagas[j]).status == SagaStatus::Indeterminate
                || sagas[j].status == SagaStatus::InDoubt) implies r.contains(j as usize) by {
            assert(recoverable_flags(sagas, cutoff_ms)[j]);
        }
    }
}

} // verus!
