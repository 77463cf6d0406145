use canonical_store::audit::{cql_audit_insert, cql_head_select, cql_head_write, HeadWrite};
use canonical_store::clickhouse::{
    flip_confirmed, next_task_version, task_version_insert, ClickHouseCanonicalStore,
    ClickHouseConfig, ClickHouseExecutor, TaskVersionRow,
};
use canonical_store::lease::{
    cql_lease_next, cql_lease_release_sql, cql_lease_sql, CqlLeaseOutcome, CqlLeaseStep,
};
use canonical_store::mysql_claim::{
    mysql_claim_binds, mysql_claim_rows_sql, mysql_claim_select_sql, mysql_claim_update_sql,
    mysql_id_binds, ClaimBind,
};
use canonical_store::mysql_token::poll_fallback_step;
use canonical_store::projection::{claim_batch, ClaimCandidate, ProjectionClaimFilter};
use canonical_store::status::ProjectionTaskStatus;
use canonical_store::token::{DurabilityToken, WaitStep};

fn task(status: ProjectionTaskStatus, created: i64) -> ClaimCandidate {
    ClaimCandidate {
        status,
        retry_count: 0,
        project_id: "p1".to_string(),
        target_backend: "neo4j".to_string(),
        target_instance: "primary".to_string(),
        next_retry_at_ms: None,
        created_at_ms: created,
    }
}

fn filter(batch: i64) -> ProjectionClaimFilter {
    ProjectionClaimFilter {
        batch_size: batch,
        max_retries: 3,
        project_id: Some("p1".to_string()),
        target_backend: Some("neo4j".to_string()),
        target_instance: None,
    }
}

#[test]
fn a_claim_takes_at_most_the_batch_oldest_first() {
    let tasks = vec![
        task(ProjectionTaskStatus::Pending, 30),
        task(ProjectionTaskStatus::Failed, 10),
        task(ProjectionTaskStatus::Completed, 1),
        task(ProjectionTaskStatus::Pending, 20),
    ];
    assert_eq!(claim_batch(&tasks, &filter(2), 0), vec![1, 3]);
    assert_eq!(claim_batch(&tasks, &filter(10), 0), vec![1, 3, 0]);
    assert_eq!(claim_batch(&tasks, &filter(0), 0), Vec::<usize>::new());
    assert_eq!(claim_batch(&tasks, &filter(-4), 0), Vec::<usize>::new());
}

#[test]
fn mysql_claim_statements_and_binds() {
    let sel = mysql_claim_select_sql("udb_projection_tasks", true, false);
    assert!(sel.starts_with("SELECT task_id FROM udb_projection_tasks\n"));
    assert!(sel.contains("AND (? = '' OR project_id = ?)"));
    assert!(sel.contains("AND target_backend = ?\n"));
    assert!(!sel.contains("target_instance"));
    assert!(sel.ends_with("LIMIT ?\n             FOR UPDATE SKIP LOCKED"));
    let none = mysql_claim_select_sql("t", false, false);
    assert!(none.contains("NOW(6))\n               \n             ORDER BY created_at"));

    let upd = mysql_claim_update_sql("udb_projection_tasks", 3);
    assert!(upd.starts_with("UPDATE udb_projection_tasks\n"));
    assert!(upd.ends_with("WHERE task_id IN (?,?,?)"));
    assert!(mysql_claim_rows_sql("t", 1).contains("WHERE task_id IN (?)\n             ORDER BY created_at"));

    let mut f = filter(5);
    f.project_id = None;
    f.target_instance = Some("blue".to_string());
    let binds = mysql_claim_binds(&f);
    let shown: Vec<String> = binds
        .iter()
        .map(|b| match b {
            ClaimBind::Int(n) => n.to_string(),
            ClaimBind::Text(s) => format!("'{s}'"),
        })
        .collect();
    assert_eq!(shown, vec!["3", "''", "''", "'neo4j'", "'blue'", "5"]);
    let ids = mysql_id_binds(&vec!["a".to_string(), "b".to_string()]);
    assert_eq!(ids.len(), 2);
    assert!(matches!(&ids[1], ClaimBind::Text(s) if s == "b"));
}

#[test]
fn mysql_fallback_polls_until_the_value_matches() {
    assert_eq!(poll_fallback_step("binlog.1:5", "binlog.1:5", 9_999, 1), WaitStep::Cleared);
    assert_eq!(poll_fallback_step("binlog.1:4", "binlog.1:5", 1_000, 1_000), WaitStep::TimedOut);
    assert_eq!(poll_fallback_step("binlog.1:4", "binlog.1:5", 10, 1_000), WaitStep::Poll);
}

#[test]
fn clickhouse_errors_name_the_refused_database() {
    let exec = ClickHouseExecutor::new(ClickHouseConfig {
        http_base: "http://localhost:8123".to_string(),
        username: "default".to_string(),
        password: String::new(),
        database: "udb".to_string(),
        is_cloud: false,
        connect_timeout_secs: 10,
        query_timeout_secs: 30,
    });
    let store = ClickHouseCanonicalStore::new(exec, "primary", "1bad");
    assert_eq!(
        store.qualified("t"),
        Err("ClickHouse identifier '1bad' must start with a letter or underscore".to_string())
    );
    let good = ClickHouseCanonicalStore::new(
        ClickHouseExecutor::new(store.executor.config.clone()),
        "primary",
        "udb",
    );
    let err = good.wait_target(&DurabilityToken::new("clickhouse", "x1")).unwrap_err();
    assert!(err.starts_with("malformed clickhouse durability token 'x1'"));
}

#[test]
fn cql_lease_acquire_steps_and_statements() {
    assert_eq!(cql_lease_next(CqlLeaseStep::Insert, true), CqlLeaseOutcome::Acquired);
    assert_eq!(cql_lease_next(CqlLeaseStep::Insert, false), CqlLeaseOutcome::Next(CqlLeaseStep::Refresh));
    assert_eq!(cql_lease_next(CqlLeaseStep::Refresh, false), CqlLeaseOutcome::Next(CqlLeaseStep::Takeover));
    assert_eq!(cql_lease_next(CqlLeaseStep::Takeover, false), CqlLeaseOutcome::Denied);
    assert_eq!(
        cql_lease_sql(CqlLeaseStep::Takeover, "ks.l"),
        "UPDATE ks.l SET owner_id = ?, expires_at = ? WHERE lease_name = ? IF expires_at <= ?"
    );
    assert_eq!(cql_lease_release_sql("ks.l"), "DELETE FROM ks.l WHERE lease_name = ? IF owner_id = ?");
}

#[test]
fn cql_chain_head_statements() {
    assert_eq!(cql_head_select("ks.c"), "SELECT head_hash FROM ks.c WHERE id = ?");
    assert_eq!(
        cql_head_write(HeadWrite::Seed, "ks.c"),
        "INSERT INTO ks.c (id, head_hash) VALUES (?, ?) IF NOT EXISTS"
    );
    assert_eq!(
        cql_head_write(HeadWrite::Advance, "ks.c"),
        "UPDATE ks.c SET head_hash = ? WHERE id = ? IF head_hash = ?"
    );
    assert!(cql_audit_insert("ks.a").ends_with("VALUES (?, ?, ?, ?, ?, ?, ?, ?, ?, ?, ?, ?, ?, ?, ?)"));
}

#[test]
fn clickhouse_versioned_flip() {
    let s = |v: &str| v.to_string();
    let row = TaskVersionRow {
        task_id: s("id-1"),
        idempotency_key: s("k"),
        project_id: s("p"),
        target_backend: s("neo4j"),
        target_instance: s("primary"),
        projection_kind: s("graph"),
        resource_name: s("r"),
        operation: s("upsert"),
        source_row_key: s("{}"),
        target_options: s("{}"),
        source_payload: s("{\"a\":\"it's\"}"),
        source_checksum: s("c"),
        status: ProjectionTaskStatus::InProgress,
        retry_count: 2,
        last_error: s(""),
        created_at_ms: 10,
        updated_at_ms: 20,
        next_retry_at_ms: None,
        completed_at_ms: Some(30),
        manifest_checksum: s("m"),
        message_type: s("t"),
        source_schema: s("public"),
        source_table: s("orders"),
    };
    let sql = task_version_insert("`udb`.`udb_projection_tasks`", &row, 7);
    assert!(sql.starts_with("INSERT INTO `udb`.`udb_projection_tasks` (task_id, idempotency_key,"));
    assert!(sql.contains("'{\"a\":\"it''s\"}', 'c', 'IN_PROGRESS', 2, '', 10, 20, 0, 30, 'm', 't', 'public', 'orders', 7)"));
    assert_eq!(next_task_version(4), 5);
    assert_eq!(next_task_version(u64::MAX), u64::MAX);
    assert!(flip_confirmed(Some(ProjectionTaskStatus::InProgress)));
    assert!(!flip_confirmed(Some(ProjectionTaskStatus::Pending)));
    assert!(!flip_confirmed(None));
}
