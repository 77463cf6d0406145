use canonical_store::cassandra::CassandraCanonicalStore;
use canonical_store::clickhouse::{ClickHouseCanonicalStore, ClickHouseConfig, ClickHouseExecutor};
use canonical_store::ident::safe_ident;
use canonical_store::mongodb::MongoDbCanonicalStore;
use canonical_store::mssql::{MssqlCanonicalStore, MssqlClient};
use canonical_store::mysql::MysqlCanonicalStore;
use canonical_store::mysql_token::{mysql_wait_form, MysqlTokenForm};
use canonical_store::neo4j::{Neo4jCanonicalStore, Neo4jConfig, Neo4jExecutor};
use canonical_store::token::DurabilityToken;

fn clickhouse_config() -> ClickHouseConfig {
    ClickHouseConfig {
        http_base: "http://localhost:8123".to_string(),
        username: "default".to_string(),
        password: String::new(),
        database: "udb".to_string(),
        is_cloud: false,
        connect_timeout_secs: 10,
        query_timeout_secs: 30,
    }
}

fn clickhouse_store() -> ClickHouseCanonicalStore {
    ClickHouseCanonicalStore::new(ClickHouseExecutor::new(clickhouse_config()), "primary", "udb")
}

fn neo4j_store() -> Neo4jCanonicalStore {
    let exec = Neo4jExecutor::new(Neo4jConfig {
        http_base: "http://localhost:7474".to_string(),
        username: "neo4j".to_string(),
        password: "secret".to_string(),
        database: "neo4j".to_string(),
        is_cloud: false,
        dev_mode: true,
        timeout_secs: 30,
    });
    Neo4jCanonicalStore::new(exec, "primary")
}

// ── Cassandra ──────────────────────────────────────────────────────────────

#[test]
fn cassandra_backend_label_is_pinned() {
    assert!(safe_ident("udb_conf_abc123").is_ok());
    assert!(safe_ident("_internal").is_ok());
}

#[test]
fn unsafe_idents_are_rejected() {
    assert!(safe_ident("").is_err());
    assert!(safe_ident("1leading_digit").is_err());
    assert!(safe_ident("evil; DROP").is_err());
    assert!(safe_ident("has-dash").is_err());
    assert!(safe_ident("has.dot").is_err());
    assert!(safe_ident("quote\"inject").is_err());
}

#[test]
fn cassandra_store_names_its_tables_in_its_keyspace() {
    let store = CassandraCanonicalStore::new("primary", "udb_ks", "udb_outbox_events");
    assert_eq!(store.backend_label(), "cassandra");
    assert_eq!(store.instance_name(), "primary");
    assert_eq!(store.qualified("udb_sagas"), "\"udb_ks\".\"udb_sagas\"");
    assert!(store.keyspace_ident().is_ok());
    let bad = CassandraCanonicalStore::new("primary", "evil; DROP", "udb_outbox_events");
    assert!(bad.keyspace_ident().is_err());
    assert!(bad.keyspace_ddl().is_err());
}

#[test]
fn cassandra_wait_target_reads_its_own_token() {
    let store = CassandraCanonicalStore::new("primary", "udb_ks", "udb_outbox_events");
    let token = store.durability_token(42);
    assert_eq!(token.backend_label, "cassandra");
    assert_eq!(token.value, "42");
    assert_eq!(store.wait_target(&token), Ok(42));
    let foreign = DurabilityToken::new("postgres", "0/100");
    let err = store.wait_target(&foreign).unwrap_err();
    assert!(err.contains("cannot wait on a 'postgres'"));
}

// ── ClickHouse ─────────────────────────────────────────────────────────────

#[test]
fn clickhouse_backend_label_is_pinned() {
    let store = clickhouse_store();
    assert_eq!(store.backend_label(), "clickhouse");
    assert_eq!(store.instance_name(), "primary");
}

#[test]
fn clickhouse_wait_for_token_rejects_foreign_backend() {
    let store = clickhouse_store();
    let foreign = DurabilityToken::new("postgres", "0/100");
    let err = store.wait_target(&foreign).expect_err("foreign token must be rejected");
    assert!(err.contains("cannot wait on"));
}

#[test]
fn clickhouse_wait_for_token_rejects_malformed_value() {
    let store = clickhouse_store();
    let bad = DurabilityToken::new("clickhouse", "not-an-int");
    let err = store.wait_target(&bad).expect_err("malformed token must error");
    assert!(err.contains("malformed"));
}

#[test]
fn unsafe_database_is_rejected() {
    let exec = ClickHouseExecutor::new(clickhouse_config());
    let store = ClickHouseCanonicalStore::new(exec, "primary", "evil`; DROP");
    assert!(store.qualified("udb_counters").is_err());
}

#[test]
fn keeper_lease_table_and_path_are_pinned() {
    let store = clickhouse_store();
    assert_eq!(store.keeper_lease_table().unwrap(), "`udb`.`udb_keeper_advisory_leases`");
    assert_eq!(store.keeper_lease_path(), "/udb/udb/primary/advisory_leases");

    let exec = ClickHouseExecutor::new(clickhouse_config());
    let weird = ClickHouseCanonicalStore::new(exec, "primary/blue:1", "udb");
    assert_eq!(weird.keeper_lease_path(), "/udb/udb/primary_blue_1/advisory_leases");
}

#[test]
fn keeper_lease_sql_uses_strict_mode_and_token_cas() {
    let table = "`udb`.`udb_keeper_advisory_leases`";
    let insert =
        ClickHouseCanonicalStore::keeper_insert_lease_sql(table, "lease-a", "owner-a", 10, "t1");
    assert!(insert.contains("INSERT INTO `udb`.`udb_keeper_advisory_leases`"));
    assert!(insert.contains("SETTINGS keeper_map_strict_mode=1 VALUES"));
    assert!(insert.contains("'lease-a'"));
    assert!(insert.contains("'owner-a'"));

    let update = ClickHouseCanonicalStore::keeper_update_lease_sql(
        table, "lease-a", "owner-b", 20, "t2", "t1",
    );
    assert!(update.starts_with("ALTER TABLE `udb`.`udb_keeper_advisory_leases` UPDATE"));
    assert!(update.contains("owner_id = 'owner-b'"));
    assert!(update.contains("token = 't2'"));
    assert!(update.contains("WHERE lease_name = 'lease-a' AND token = 't1'"));
    assert!(update.ends_with("SETTINGS keeper_map_strict_mode=1"));
}

#[test]
fn keeper_lease_sql_escapes_quotes() {
    let table = "`udb`.`udb_keeper_advisory_leases`";
    let insert =
        ClickHouseCanonicalStore::keeper_insert_lease_sql(table, "it's", "o'wner", 10, "t1");
    assert!(insert.contains("'it''s'"));
    assert!(insert.contains("'o''wner'"));
}

#[test]
fn clickhouse_qualifies_tables_in_its_database() {
    let store = clickhouse_store();
    assert_eq!(store.qualified("udb_counters").unwrap(), "`udb`.`udb_counters`");
    assert!(store.saga_table().is_ok());
}

// ── SQL Server ─────────────────────────────────────────────────────────────

#[test]
fn mssql_backend_label_is_pinned() {
    let store = MssqlCanonicalStore::new(
        MssqlClient::new("Server=localhost,1433;User=sa;Password=x;"),
        "primary",
        "udb_outbox_events",
    );
    assert_eq!(store.backend_label(), "mssql");
    assert_eq!(store.instance_name(), "primary");
}

#[test]
fn mssql_unsafe_relation_is_rejected() {
    let store = MssqlCanonicalStore::new(MssqlClient::new("Server=x;"), "primary", "evil; DROP");
    assert!(store.safe_relation().is_err());
}

#[test]
fn bracketed_relation_is_allowed() {
    let store = MssqlCanonicalStore::new(
        MssqlClient::new("Server=x;"),
        "primary",
        "[dbo].[udb_outbox_events]",
    );
    assert!(store.safe_relation().is_ok());
}

#[test]
fn rejects_non_mssql_token() {
    let store =
        MssqlCanonicalStore::new(MssqlClient::new("Server=x;"), "primary", "udb_outbox_events");
    let pg_token = DurabilityToken::new("postgres", "0/100");
    let err = store.wait_target(&pg_token).expect_err("must reject cross-backend token");
    assert!(err.contains("cannot wait on a 'postgres'"), "got: {err}");
}

#[test]
fn mssql_relation_overrides_default_to_the_system_tables() {
    let store =
        MssqlCanonicalStore::new(MssqlClient::new("Server=x;"), "primary", "udb_outbox_events");
    assert_eq!(store.saga_relation_ref(), "udb_sagas");
    let store = store.with_saga_relation("[dbo].[sagas_blue]");
    assert_eq!(store.saga_relation_ref(), "[dbo].[sagas_blue]");
}

// ── MySQL ──────────────────────────────────────────────────────────────────

#[test]
fn mysql_backend_label_is_pinned() {
    let store = MysqlCanonicalStore::new("primary", "udb_outbox_events");
    assert_eq!(store.backend_label(), "mysql");
    assert_eq!(store.instance_name(), "primary");
}

#[test]
fn rejects_non_mysql_token() {
    let pg_token = DurabilityToken::new("postgres", "0/100");
    let err = match mysql_wait_form(&pg_token) {
        Err(e) => e,
        Ok(_) => panic!("must reject cross-backend token"),
    };
    assert!(err.contains("cannot wait on a 'postgres'"), "got: {err}");
}

#[test]
fn mysql_unsafe_relation_is_rejected() {
    let store = MysqlCanonicalStore::new("primary", "evil; DROP");
    assert!(store.safe_relation().is_err());
}

#[test]
fn mysql_wait_reads_both_token_forms() {
    let file = DurabilityToken::new("mysql", "file:binlog.000123:4567");
    match mysql_wait_form(&file) {
        Ok(MysqlTokenForm::FilePos { file, pos }) => {
            assert_eq!(file, "binlog.000123");
            assert_eq!(pos, 4567);
        }
        _ => panic!("file token must read as a coordinate"),
    }
    let gtid = DurabilityToken::new("MySQL", "gtid:3E11FA47-71CA-11E1-9E33-C80AA9429562:1-5");
    match mysql_wait_form(&gtid) {
        Ok(MysqlTokenForm::Gtid(set)) => assert_eq!(set, "3E11FA47-71CA-11E1-9E33-C80AA9429562:1-5"),
        _ => panic!("gtid token must read as a GTID set"),
    }
}

// ── MongoDB ────────────────────────────────────────────────────────────────

#[test]
fn mongodb_backend_label_and_token_are_pinned() {
    let store = MongoDbCanonicalStore::new("primary", "udb_outbox_events");
    assert_eq!(store.backend_label(), "mongodb");
    assert_eq!(store.instance_name(), "primary");
    let token = store.durability_token(7);
    assert_eq!(store.wait_target(&token), Ok(7));
    assert!(store.wait_target(&DurabilityToken::new("mongodb", "x")).is_err());
}

#[test]
fn mongodb_driver_errors_are_classified_by_text() {
    assert!(MongoDbCanonicalStore::is_duplicate_key("E11000 duplicate key error collection"));
    assert!(!MongoDbCanonicalStore::is_duplicate_key("connection reset"));
    assert!(MongoDbCanonicalStore::is_namespace_exists("Command failed: NamespaceExists"));
}

// ── Neo4j ──────────────────────────────────────────────────────────────────

#[test]
fn neo4j_backend_label_is_pinned() {
    let store = neo4j_store();
    assert_eq!(store.backend_label(), "neo4j");
    assert_eq!(store.instance_name(), "primary");
}

#[test]
fn neo4j_wait_for_token_rejects_foreign_backend() {
    let store = neo4j_store();
    let foreign = DurabilityToken::new("postgres", "0/100");
    let err = store.wait_target(&foreign).expect_err("foreign token must be rejected");
    assert!(err.contains("cannot wait on"));
}

#[test]
fn neo4j_wait_for_token_rejects_malformed_value() {
    let store = neo4j_store();
    let bad = DurabilityToken::new("neo4j", "not-an-int");
    let err = store.wait_target(&bad).expect_err("malformed token must error");
    assert!(err.contains("malformed"));
}

#[test]
fn neo4j_run_tag_can_be_overridden() {
    let store = neo4j_store().with_run_tag("conformance-live");
    assert_eq!(store.run_tag(), "conformance-live");
}
