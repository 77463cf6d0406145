use canonical_store::dsn::swap_database;
use canonical_store::groups::{
    dead_letter_groups, pending_task_metrics, requeue_by_source_applies, DeadLetterRow,
    PendingTaskRow,
};
use canonical_store::ident::{clickhouse_safe_ident, safe_keeper_path_component, sql_lit};
use canonical_store::lease::{
    keeper_acquire_won, keeper_lease_token, keeper_may_acquire, keeper_release_applies,
    keeper_release_token, lease_owned_by, KeeperLeaseRow,
};
use canonical_store::selection::{oldest_first_selection, truncate_to_limit};
use canonical_store::sequence::{
    cas_attempt_allowed, clickhouse_confirm_allocation, clickhouse_counter_insert, cql_cas_round,
    outbox_seq_step, seq_cas_outcome, SeqAllocStep, OUTBOX_CAS_MAX_ATTEMPTS,
};
use canonical_store::status::{ProjectionTaskStatus, SystemStoreError};

// ── Leases ─────────────────────────────────────────────────────────────────

fn lease(owner: &str, expires: i64, token: &str) -> KeeperLeaseRow {
    KeeperLeaseRow { owner_id: owner.to_string(), expires_at: expires, token: token.to_string() }
}

#[test]
fn live_lease_is_held_by_its_owner_only() {
    let held = lease("owner-a", 100, "t1");
    assert!(keeper_may_acquire(None, "owner-b", 50));
    assert!(!keeper_may_acquire(Some(&held), "owner-b", 50));
    assert!(keeper_may_acquire(Some(&held), "owner-a", 50));
    assert!(keeper_may_acquire(Some(&held), "owner-b", 100));
    assert!(keeper_may_acquire(Some(&lease("", 1_000, "released:1:x")), "owner-b", 50));
}

#[test]
fn acquire_is_won_by_the_writer_of_the_confirmed_token() {
    let confirmed = lease("owner-a", 100, "owner-a:5:n1");
    assert!(keeper_acquire_won(Some(&confirmed), "owner-a", "owner-a:5:n1"));
    assert!(!keeper_acquire_won(Some(&confirmed), "owner-a", "owner-a:5:n2"));
    assert!(!keeper_acquire_won(None, "owner-a", "owner-a:5:n1"));
    assert!(keeper_release_applies(Some(&confirmed), "owner-a"));
    assert!(!keeper_release_applies(Some(&confirmed), "owner-b"));
    assert!(lease_owned_by(Some("owner-a"), "owner-a"));
    assert!(!lease_owned_by(None, "owner-a"));
}

#[test]
fn lease_tokens_carry_owner_time_and_nonce() {
    assert_eq!(keeper_lease_token("owner-a", 1_700, "n1"), "owner-a:1700:n1");
    assert_eq!(keeper_release_token(-3, "n2"), "released:-3:n2");
}

// ── Sequences ──────────────────────────────────────────────────────────────

#[test]
fn outbox_sequence_steps_seed_then_advance() {
    assert_eq!(outbox_seq_step(None), SeqAllocStep::Seed);
    assert_eq!(outbox_seq_step(Some(41)), SeqAllocStep::Advance { current: 41, next: 42 });
    assert_eq!(seq_cas_outcome(SeqAllocStep::Seed, true), Some(1));
    assert_eq!(seq_cas_outcome(SeqAllocStep::Advance { current: 41, next: 42 }, true), Some(42));
    assert_eq!(seq_cas_outcome(SeqAllocStep::Advance { current: 41, next: 42 }, false), None);
}

#[test]
fn cas_loops_give_up_after_their_cap() {
    assert!(cas_attempt_allowed(OUTBOX_CAS_MAX_ATTEMPTS, "ks.udb_seq").is_ok());
    assert_eq!(
        cas_attempt_allowed(OUTBOX_CAS_MAX_ATTEMPTS + 1, "ks.udb_seq"),
        Err("outbox seq CAS did not converge after 64 attempts (contention on ks.udb_seq)".to_string())
    );
    assert!(cql_cas_round(64, 64, "record_migration_op", "ledger-id").is_ok());
    match cql_cas_round(65, 64, "record_migration_op", "ledger-id") {
        Err(SystemStoreError::Io { backend, source }) => {
            assert_eq!(backend, "cassandra");
            assert_eq!(source, "record_migration_op: ledger-id CAS did not converge");
        }
        _ => panic!("past the cap is an error"),
    }
}

#[test]
fn clickhouse_allocation_is_confirmed_by_the_reread() {
    assert_eq!(
        clickhouse_counter_insert("`udb`.`udb_counters`", 8),
        "INSERT INTO `udb`.`udb_counters` (id, seq, version) VALUES ('outbox_seq', 8, 8)"
    );
    assert_eq!(clickhouse_confirm_allocation(8, 8), Ok(8));
    assert_eq!(clickhouse_confirm_allocation(8, 9), Ok(8));
    assert_eq!(
        clickhouse_confirm_allocation(8, 7),
        Err("outbox seq allocation lost a race: inserted 8, re-read 7 (Keeper sequence lock invariant violated)".to_string())
    );
}

// ── Identifiers, literals and DSNs ─────────────────────────────────────────

#[test]
fn clickhouse_identifiers_and_literals() {
    assert!(clickhouse_safe_ident("udb_1").is_ok());
    assert!(clickhouse_safe_ident("").is_err());
    assert!(clickhouse_safe_ident("1udb").is_err());
    assert!(clickhouse_safe_ident(&"a".repeat(65)).is_err());
    assert_eq!(sql_lit("it's"), "'it''s'");
    assert_eq!(safe_keeper_path_component(""), "default");
    assert_eq!(safe_keeper_path_component("a b/c"), "a_b_c");
}

#[test]
fn swapping_the_database_keeps_the_rest_of_the_dsn() {
    assert_eq!(swap_database("mysql://u:p@h:3306/app", "conf_1"), "mysql://u:p@h:3306/conf_1");
    assert_eq!(swap_database("nodb", "conf_1"), "nodb/conf_1");
}

// ── Selection and grouping ─────────────────────────────────────────────────

#[test]
fn selection_is_oldest_first_with_ties_in_scan_order() {
    let keys = vec![5, 1, 5, 3, 0];
    let eligible = vec![true, true, true, false, true];
    let mut r = oldest_first_selection(&keys, &eligible);
    assert_eq!(r, vec![4, 1, 0, 2]);
    truncate_to_limit(&mut r, 2);
    assert_eq!(r, vec![4, 1]);
    truncate_to_limit(&mut r, -7);
    assert_eq!(r, vec![4]);
}

fn pending(status: ProjectionTaskStatus, project: &str, created: i64) -> PendingTaskRow {
    PendingTaskRow {
        status,
        project_id: project.to_string(),
        target_backend: "neo4j".to_string(),
        target_instance: "primary".to_string(),
        projection_kind: "graph".to_string(),
        created_at_ms: created,
    }
}

#[test]
fn pending_metrics_group_waiting_tasks_per_target() {
    let tasks = vec![
        pending(ProjectionTaskStatus::Pending, "p1", 30),
        pending(ProjectionTaskStatus::Completed, "p2", 1),
        pending(ProjectionTaskStatus::Failed, "p1", 10),
        pending(ProjectionTaskStatus::Pending, "p2", 20),
        pending(ProjectionTaskStatus::Pending, "p1", 40),
    ];
    let m = pending_task_metrics(&tasks, 10);
    assert_eq!(m.len(), 2);
    assert_eq!((m[0].project_id.as_str(), m[0].pending, m[0].oldest_created_at_ms), ("p1", 3, 10));
    assert_eq!((m[1].project_id.as_str(), m[1].pending, m[1].oldest_created_at_ms), ("p2", 1, 20));
    assert_eq!(pending_task_metrics(&tasks, 0).len(), 1);
}

fn dead(source: &str, status: &str, err: &str) -> DeadLetterRow {
    DeadLetterRow {
        project_id: "p1".to_string(),
        source_table: source.to_string(),
        target_backend: "neo4j".to_string(),
        target_instance: "primary".to_string(),
        status: status.to_string(),
        last_error: err.to_string(),
    }
}

#[test]
fn dead_letter_groups_count_per_source_and_skip_excluded_errors() {
    let rows = vec![
        dead("orders", "DEAD_LETTER", "boom"),
        dead("users", "DEAD_LETTER", "authority: denied"),
        dead("orders", "DEAD_LETTER", "boom again"),
        dead("users", "FAILED", "boom"),
        dead("users", "DEAD_LETTER", "boom"),
    ];
    let g = dead_letter_groups(&rows, Some("authority:"), 10);
    assert_eq!(g.len(), 2);
    assert_eq!((g[0].source_table.as_str(), g[0].dead_count), ("orders", 2));
    assert_eq!((g[1].source_table.as_str(), g[1].dead_count), ("users", 1));
    let all = dead_letter_groups(&rows, None, 10);
    assert_eq!((all[1].source_table.as_str(), all[1].dead_count), ("users", 2));
    assert!(requeue_by_source_applies(&rows[0], Some("authority:"), "p1", "orders", "neo4j", "primary"));
    assert!(!requeue_by_source_applies(&rows[1], Some("authority:"), "p1", "users", "neo4j", "primary"));
    assert!(!requeue_by_source_applies(&rows[0], None, "p1", "users", "neo4j", "primary"));
}
