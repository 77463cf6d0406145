use canonical_store::audit::{
    head_write, previous_hash_of, verify_continues, verify_page_size, verify_step,
    within_verify_limit, HeadWrite, VerifyStep,
};
use canonical_store::projection::{
    check_failure_status, claimed_task_id, claim_batch_full, claim_candidates, claim_eligible, is_stale_in_progress,
    pending_fence_count, projection_status_of_row, requeue_dead_letter_applies,
    summary_of_statuses, ClaimCandidate, ProjectionClaimFilter,
};
use canonical_store::saga::{
    check_recompensation, claimed_status, is_recoverable, recovery_candidates, saga_status_of_row,
    saga_summary_of_statuses, stale_cutoff_ms, RecoveryCandidate,
};
use canonical_store::status::{ProjectionTaskStatus, SagaStatus, SystemStoreError};

fn task(status: ProjectionTaskStatus, retry: i32, created: i64) -> ClaimCandidate {
    ClaimCandidate {
        status,
        retry_count: retry,
        project_id: "p1".to_string(),
        target_backend: "neo4j".to_string(),
        target_instance: "primary".to_string(),
        next_retry_at_ms: None,
        created_at_ms: created,
    }
}

fn filter(batch: i64) -> ProjectionClaimFilter {
    ProjectionClaimFilter {
        batch_size: batch,
        max_retries: 3,
        project_id: None,
        target_backend: Some("neo4j".to_string()),
        target_instance: None,
    }
}

// ── Projection tasks ───────────────────────────────────────────────────────

#[test]
fn claims_go_oldest_first_and_skip_ineligible_tasks() {
    let tasks = vec![
        task(ProjectionTaskStatus::Pending, 0, 30),
        task(ProjectionTaskStatus::Completed, 0, 5),
        task(ProjectionTaskStatus::Failed, 1, 10),
        task(ProjectionTaskStatus::Pending, 3, 1),
        task(ProjectionTaskStatus::InProgress, 0, 2),
        task(ProjectionTaskStatus::Pending, 0, 10),
    ];
    assert_eq!(claim_candidates(&tasks, &filter(10), 0), vec![2, 5, 0]);
    assert_eq!(claim_candidates(&tasks, &filter(0), 0), Vec::<usize>::new());
}

#[test]
fn failed_task_waits_for_its_retry_time() {
    let mut t = task(ProjectionTaskStatus::Failed, 0, 1);
    t.next_retry_at_ms = Some(1_000);
    assert!(!claim_eligible(&t, &filter(1), 999));
    assert!(claim_eligible(&t, &filter(1), 1_000));
    let mut other = task(ProjectionTaskStatus::Pending, 0, 1);
    other.target_backend = "mongodb".to_string();
    assert!(!claim_eligible(&other, &filter(1), 0));
}

#[test]
fn claim_batch_fills_at_the_batch_size() {
    assert!(!claim_batch_full(2, 3));
    assert!(claim_batch_full(3, 3));
    assert!(claim_batch_full(0, -1));
}

#[test]
fn failure_may_only_record_failed_or_dead_letter() {
    assert!(check_failure_status(ProjectionTaskStatus::Failed).is_ok());
    assert!(check_failure_status(ProjectionTaskStatus::DeadLetter).is_ok());
    match check_failure_status(ProjectionTaskStatus::Completed) {
        Err(SystemStoreError::InvalidInput(m)) => assert_eq!(
            m,
            "mark_projection_task_failed only accepts FAILED or DEAD_LETTER, got COMPLETED"
        ),
        _ => panic!("COMPLETED is not a failure status"),
    }
}

#[test]
fn projection_summary_counts_every_row_and_names_unknown_status() {
    let rows: Vec<String> =
        ["PENDING", "FAILED", "PENDING", "DEAD_LETTER"].iter().map(|s| s.to_string()).collect();
    let s = summary_of_statuses(&rows, "cassandra").unwrap();
    assert_eq!((s.pending, s.failed, s.dead_letter, s.completed), (2, 1, 1, 0));
    assert_eq!(s.total(), 4);
    let bad: Vec<String> = ["PENDING", "WAT", "NOPE"].iter().map(|s| s.to_string()).collect();
    match summary_of_statuses(&bad, "mongodb") {
        Err(SystemStoreError::InvalidInput(m)) => {
            assert_eq!(m, "unknown projection status 'WAT' in mongodb summary")
        }
        _ => panic!("unknown status must be refused"),
    }
}

#[test]
fn fence_counts_tasks_not_yet_completed() {
    let statuses = vec![
        Some("COMPLETED".to_string()),
        None,
        Some("FAILED".to_string()),
        Some("PENDING".to_string()),
        Some("DEAD_LETTER".to_string()),
    ];
    assert_eq!(pending_fence_count(&statuses), 3);
    assert_eq!(pending_fence_count(&vec![Some("COMPLETED".to_string()), None]), 0);
}

#[test]
fn dead_letter_requeue_and_stale_reset_decisions() {
    assert!(requeue_dead_letter_applies(ProjectionTaskStatus::DeadLetter, "neo4j", None));
    assert!(requeue_dead_letter_applies(ProjectionTaskStatus::DeadLetter, "neo4j", Some("neo4j")));
    assert!(!requeue_dead_letter_applies(ProjectionTaskStatus::DeadLetter, "neo4j", Some("mongodb")));
    assert!(!requeue_dead_letter_applies(ProjectionTaskStatus::Failed, "neo4j", None));
    assert!(is_stale_in_progress(ProjectionTaskStatus::InProgress, 5, 10));
    assert!(!is_stale_in_progress(ProjectionTaskStatus::InProgress, 10, 10));
}

#[test]
fn row_status_decoding_names_the_backend() {
    assert_eq!(projection_status_of_row("IN_PROGRESS", "clickhouse").unwrap(), ProjectionTaskStatus::InProgress);
    match projection_status_of_row("in_progress", "clickhouse") {
        Err(SystemStoreError::InvalidInput(m)) => {
            assert_eq!(m, "unknown projection status 'in_progress' in clickhouse row")
        }
        _ => panic!("statuses are upper case"),
    }
    match saga_status_of_row("bogus", "MySQL") {
        Err(SystemStoreError::InvalidInput(m)) => assert_eq!(m, "unknown saga status 'bogus' in MySQL row"),
        _ => panic!("unknown saga status"),
    }
}

// ── Sagas ──────────────────────────────────────────────────────────────────

#[test]
fn recovery_claims_unsettled_sagas_oldest_first() {
    let sagas = vec![
        RecoveryCandidate { status: SagaStatus::Committed, updated_at_ms: 1 },
        RecoveryCandidate { status: SagaStatus::InDoubt, updated_at_ms: 50 },
        RecoveryCandidate { status: SagaStatus::InProgress, updated_at_ms: 20 },
        RecoveryCandidate { status: SagaStatus::InProgress, updated_at_ms: 200 },
        RecoveryCandidate { status: SagaStatus::Indeterminate, updated_at_ms: 5 },
    ];
    assert_eq!(recovery_candidates(&sagas, 100, 10), vec![4, 2, 1]);
    assert_eq!(recovery_candidates(&sagas, 100, 2), vec![4, 2]);
    assert_eq!(recovery_candidates(&sagas, 100, 0), vec![4]);
    assert!(is_recoverable(SagaStatus::InProgress, 99, 100));
    assert!(!is_recoverable(SagaStatus::FailedCompensation, 0, 100));
}

#[test]
fn claimed_stale_saga_becomes_indeterminate_or_is_skipped() {
    assert_eq!(claimed_status(SagaStatus::InProgress, true), Some(SagaStatus::Indeterminate));
    assert_eq!(claimed_status(SagaStatus::InProgress, false), None);
    assert_eq!(claimed_status(SagaStatus::InDoubt, false), Some(SagaStatus::InDoubt));
}

#[test]
fn recompensation_needs_a_retryable_saga() {
    assert!(check_recompensation(Some(SagaStatus::ManualReview), "s-1").is_ok());
    assert!(check_recompensation(Some(SagaStatus::FailedCompensation), "s-1").is_ok());
    for current in [None, Some(SagaStatus::Committed)] {
        match check_recompensation(current, "s-1") {
            Err(SystemStoreError::InvalidInput(m)) => assert_eq!(
                m,
                "saga s-1 is not in a retryable state (must be failed_compensation or manual_review)"
            ),
            _ => panic!("not retryable"),
        }
    }
}

#[test]
fn saga_summary_counts_every_row() {
    let rows: Vec<String> =
        ["committed", "in_doubt", "committed", "manual_review"].iter().map(|s| s.to_string()).collect();
    let s = saga_summary_of_statuses(&rows, "cassandra").unwrap();
    assert_eq!((s.committed, s.in_doubt, s.manual_review), (2, 1, 1));
    assert_eq!(s.total(), 4);
    let bad = vec!["committed".to_string(), "gone".to_string()];
    match saga_summary_of_statuses(&bad, "clickhouse") {
        Err(SystemStoreError::InvalidInput(m)) => {
            assert_eq!(m, "unknown saga status 'gone' in clickhouse summary")
        }
        _ => panic!("unknown status"),
    }
}

#[test]
fn stale_cutoff_subtracts_the_staleness_window() {
    assert_eq!(stale_cutoff_ms(10_000, 2_500), 7_500);
    assert_eq!(stale_cutoff_ms(10_000, u64::MAX), 10_000);
}

// ── Admin-audit chain ──────────────────────────────────────────────────────

#[test]
fn verify_pages_stop_at_the_limit() {
    assert_eq!(verify_step(Some(2_500), 0, 0, 1_000), VerifyStep::Fetch { offset: 0, page: 1_000 });
    assert_eq!(verify_step(Some(2_500), 2_000, 2_000, 1_000), VerifyStep::Fetch { offset: 2_000, page: 500 });
    assert_eq!(verify_step(Some(2_500), 2_500, 2_500, 1_000), VerifyStep::Done);
    assert_eq!(verify_step(None, 7, 7, 1_000), VerifyStep::Fetch { offset: 7, page: 1_000 });
    assert_eq!(verify_step(Some(0), 7, 7, 50), VerifyStep::Fetch { offset: 7, page: 50 });
    assert!(verify_continues(1_000, 1_000));
    assert!(!verify_continues(999, 1_000));
    assert!(!verify_continues(0, 1_000));
    assert!(within_verify_limit(Some(3), 2));
    assert!(!within_verify_limit(Some(3), 3));
    assert!(within_verify_limit(Some(-1), 1_000_000));
}

#[test]
fn verify_page_size_setting_falls_back_to_default() {
    assert_eq!(verify_page_size(None), 1_000);
    assert_eq!(verify_page_size(Some("250")), 250);
    assert_eq!(verify_page_size(Some("0")), 1_000);
    assert_eq!(verify_page_size(Some("-4")), 1_000);
    assert_eq!(verify_page_size(Some("lots")), 1_000);
}

#[test]
fn append_links_to_the_head_it_read() {
    assert_eq!(head_write(None), HeadWrite::Seed);
    assert_eq!(head_write(Some("abc")), HeadWrite::Advance);
    assert_eq!(previous_hash_of(None), "");
    assert_eq!(previous_hash_of(Some("abc")), "abc");
}

#[test]
fn idempotent_enqueue_answers_the_stored_id() {
    assert_eq!(claimed_task_id(true, 7, None).unwrap(), 7);
    assert_eq!(claimed_task_id(false, 9, Some(7)).unwrap(), 7);
    match claimed_task_id(false, 9, None) {
        Err(SystemStoreError::Io { backend, source }) => {
            assert_eq!(backend, "cassandra");
            assert_eq!(source, "enqueue_projection_task: idempotency row vanished after not-applied LWT");
        }
        _ => panic!("vanished key row is an error"),
    }
}
