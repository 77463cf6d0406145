use canonical_store::cassandra::CassandraCanonicalStore;
use canonical_store::clickhouse::ClickHouseCanonicalStore;
use canonical_store::lease::lease_expiry;
use canonical_store::mongodb::mongo_err;
use canonical_store::mssql::{MssqlCanonicalStore, MssqlClient};
use canonical_store::mysql_token::{gtid_wait_cleared, pos_wait_cleared};
use canonical_store::neo4j::neo_err;
use canonical_store::saga::next_retry_count;
use canonical_store::sequence::{
    clickhouse_counter_select, clickhouse_next_seq, counter_or_zero, cql_counter_cas,
    cql_counter_seed, cql_counter_select, next_recovery_attempt,
};
use canonical_store::status::SystemStoreError;
use canonical_store::token::DurabilityToken;

#[test]
fn mssql_relations_default_and_override() {
    let store =
        MssqlCanonicalStore::new(MssqlClient::new("Server=x;"), "primary", "udb_outbox_events");
    assert_eq!(store.admin_audit_relation_ref(), "udb_admin_audit_log");
    assert_eq!(store.projection_relation_ref(), "udb_projection_tasks");
    assert_eq!(store.migration_runs_rel(), "udb_migration_runs");
    assert_eq!(store.migration_ledger_rel(), "udb_migration_op_ledger");
    let store = store
        .with_admin_audit_relation("[dbo].[audit_blue]")
        .with_projection_relation("[dbo].[tasks_blue]")
        .with_migration_relations("[dbo].[runs_blue]", "[dbo].[ledger_blue]");
    assert_eq!(store.admin_audit_relation_ref(), "[dbo].[audit_blue]");
    assert_eq!(store.projection_relation_ref(), "[dbo].[tasks_blue]");
    assert_eq!(store.migration_runs_rel(), "[dbo].[runs_blue]");
    assert_eq!(store.migration_ledger_rel(), "[dbo].[ledger_blue]");
    assert_eq!(MssqlCanonicalStore::safe_object_name("[dbo].[x]"), Ok("[dbo].[x]"));
    assert_eq!(
        MssqlCanonicalStore::safe_object_name("x; DROP"),
        Err("unsafe relation name 'x; DROP'".to_string())
    );
}

#[test]
fn mssql_reads_its_own_current_token() {
    assert_eq!(MssqlCanonicalStore::current_seq_of(&DurabilityToken::new("mssql", "17")), Ok(17));
    let err = MssqlCanonicalStore::current_seq_of(&DurabilityToken::new("mssql", "x")).unwrap_err();
    assert!(err.starts_with("malformed current mssql token 'x'"));
}

#[test]
fn cassandra_system_tables_live_in_the_keyspace() {
    let store = CassandraCanonicalStore::new("primary", "ks", "udb_outbox_events");
    assert_eq!(store.lease_table(), "\"ks\".\"udb_advisory_leases\"");
    assert_eq!(store.audit_chain_table(), "\"ks\".\"udb_admin_audit_chain\"");
    assert_eq!(store.idem_table(), "\"ks\".\"udb_projection_idem\"");
    assert_eq!(store.outbox_ident(), Ok("udb_outbox_events"));
}

#[test]
fn lease_select_reads_one_row() {
    assert_eq!(
        ClickHouseCanonicalStore::keeper_select_lease_sql("`udb`.`leases`", "l'a"),
        "SELECT owner_id, expires_at, token FROM `udb`.`leases` WHERE lease_name = 'l''a'"
    );
    assert_eq!(lease_expiry(1_000, 250), 1_250);
}

#[test]
fn replica_wait_results() {
    assert!(gtid_wait_cleared(Some(0)));
    assert!(!gtid_wait_cleared(Some(1)));
    assert!(!gtid_wait_cleared(None));
    assert!(pos_wait_cleared(Some(Some(0))));
    assert!(!pos_wait_cleared(Some(None)));
    assert!(!pos_wait_cleared(None));
}

#[test]
fn counter_statements_and_steps() {
    assert_eq!(counter_or_zero(None), 0);
    assert_eq!(counter_or_zero(Some(9)), 9);
    assert_eq!(cql_counter_select("ks.seq"), "SELECT seq FROM ks.seq WHERE id = 'outbox'");
    assert_eq!(
        cql_counter_seed("ks.seq"),
        "INSERT INTO ks.seq (id, seq) VALUES ('outbox', ?) IF NOT EXISTS"
    );
    assert_eq!(cql_counter_cas("ks.seq"), "UPDATE ks.seq SET seq = ? WHERE id = 'outbox' IF seq = ?");
    assert_eq!(
        clickhouse_counter_select("`udb`.`c`"),
        "SELECT seq FROM `udb`.`c` FINAL WHERE id = 'outbox_seq'"
    );
    assert_eq!(clickhouse_next_seq(41), 42);
    assert_eq!(next_recovery_attempt(2), 3);
    assert_eq!(next_retry_count(0), 1);
}

#[test]
fn driver_errors_carry_backend_and_operation() {
    match mongo_err("find", "timeout") {
        SystemStoreError::Io { backend, source } => {
            assert_eq!(backend, "mongodb");
            assert_eq!(source, "find: timeout");
        }
        _ => panic!("io error"),
    }
    match neo_err("cypher", "503") {
        SystemStoreError::Io { backend, source } => {
            assert_eq!(backend, "neo4j");
            assert_eq!(source, "cypher: 503");
        }
        _ => panic!("io error"),
    }
}

#[test]
fn outbox_event_holds_its_row() {
    let e = canonical_store::outbox::OutboxEvent {
        event_seq: 1,
        event_id: "e-1".to_string(),
        topic: "orders".to_string(),
        partition_key: "k".to_string(),
        payload: serde_json::Value::Bool(true),
        created_at_unix_ms: 5,
    };
    assert_eq!(e.event_seq, 1);
    assert_eq!(e.payload, serde_json::Value::Bool(true));
}
