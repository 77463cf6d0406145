//! ClickHouse canonical store: table qualification under the checked
//! database name, the Keeper lease path and the KeeperMap lease SQL, the
//! durability token and the error mapping of the HTTP-backed store.
use vstd::prelude::*;

use crate::clock;
use crate::ident::{
    byte_len, clickhouse_ident_message, clickhouse_safe_ident, is_safe_ident, keeper_path_component_spec, safe_keeper_path_component,
    sql_lit, sql_lit_spec,
};
use crate::cells::opt_millis_lit;
use crate::status::{ProjectionTaskStatus, SystemStoreError, io_error, projection_status_text};
use crate::text::{i64_to_decimal, int_decimal, nat_decimal, u64_to_decimal};
use crate::token::{DurabilityToken, seq_durability_token, seq_wait_target, seq_wait_target_of};

verus! {

/// Connection settings of the ClickHouse HTTP executor.
#[derive(Debug, Clone)]
pub struct ClickHouseConfig {
    pub http_base: String,
    pub username: String,
    pub password: String,
    pub database: String,
    pub is_cloud: bool,
    pub connect_timeout_secs: u64,
    pub query_timeout_secs: u64,
}

/// The ClickHouse HTTP executor a store runs its SQL through; the HTTP round
/// trips themselves are made by the application layer with these settings.
#[derive(Debug, Clone)]
pub struct ClickHouseExecutor {
    pub config: ClickHouseConfig,
}

impl ClickHouseExecutor {
    pub fn new(config: ClickHouseConfig) -> (e: Self)
        ensures
            e.config == config,
    {
        ClickHouseExecutor { config }
    }
}

/// KeeperMap table of advisory leases.
pub open spec fn keeper_lease_table_name() -> Seq<char> {
    "udb_keeper_advisory_leases"@
}

/// The strict-mode setting every KeeperMap lease write carries.
pub open spec fn keeper_strict_setting() -> Seq<char> {
    "SETTINGS keeper_map_strict_mode=1"@
}

/// `` `db`.`table` ``.
pub open spec fn ch_qualified(database: Seq<char>, table: Seq<char>) -> Seq<char> {
    "`"@ + database + "`.`"@ + table + "`"@
}

pub open spec fn keeper_insert_lease_sql_spec(
    table: Seq<char>,
    lease_name: Seq<char>,
    owner_id: Seq<char>,
    expires_at: i64,
    token: Seq<char>,
) -> Seq<char> {
    "INSERT INTO "@ + table + " (lease_name, owner_id, expires_at, token) "@
        + keeper_strict_setting() + " VALUES ("@ + sql_lit_spec(lease_name) + ", "@ + sql_lit_spec(
        owner_id,
    ) + ", "@ + int_decimal(expires_at as int) + ", "@ + sql_lit_spec(token) + ")"@
}

pub open spec fn keeper_update_lease_sql_spec(
    table: Seq<char>,
    lease_name: Seq<char>,
    owner_id: Seq<char>,
    expires_at: i64,
    token: Seq<char>,
    previous_token: Seq<char>,
) -> Seq<char> {
    "ALTER TABLE "@ + table + " UPDATE owner_id = "@ + sql_lit_spec(owner_id) + ", expires_at = "@
        + int_decimal(expires_at as int) + ", token = "@ + sql_lit_spec(token)
        + " WHERE lease_name = "@ + sql_lit_spec(lease_name) + " AND token = "@ + sql_lit_spec(
        previous_token,
    ) + " "@ + keeper_strict_setting()
}

pub open spec fn keeper_select_lease_sql_spec(table: Seq<char>, lease_name: Seq<char>) -> Seq<
    char,
> {
    "SELECT owner_id, expires_at, token FROM "@ + table + " WHERE lease_name = "@ + sql_lit_spec(
        lease_name,
    )
}

/// ClickHouse-backed canonical store.
pub struct ClickHouseCanonicalStore {
    pub executor: ClickHouseExecutor,
    pub instance_name: String,
    /// Database that hosts the system tables; checked before every use.
    pub database: String,
}

impl ClickHouseCanonicalStore {
    pub fn new(executor: ClickHouseExecutor, instance_name: &str, database: &str) -> (s: Self)
        ensures
            s.executor == executor,
            s.instance_name@ == instance_name@,
            s.database@ == database@,
    {
        ClickHouseCanonicalStore {
            executor,
            instance_name: String::from_str(instance_name),
            database: String::from_str(database),
        }
    }

    pub fn backend_label(&self) -> (r: &'static str)
        ensures
            r@ == "clickhouse"@,
    {
        "clickhouse"
    }

    pub fn instance_name(&self) -> (r: &str)
        ensures
            r@ == self.instance_name@,
    {
        self.instance_name.as_str()
    }

    pub fn executor(&self) -> (r: &ClickHouseExecutor)
        ensures
            *r == self.executor,
    {
        &self.executor
    }

    /// Fully-qualified, back-quoted `` `db`.`table` `` once the database
    /// name is checked; the database check's message otherwise.
    pub fn qualified(&self, table: &str) -> (r: Result<String, String>)
        ensures
            r is Ok <==> (is_safe_ident(self.database@) && byte_len(self.database@) <= 64),
            r matches Ok(q) ==> q@ == ch_qualified(self.database@, table@),
            r matches Err(m) ==> m@ == clickhouse_ident_message(self.database@),
    {
        clickhouse_safe_ident(self.database.as_str())?;
        Ok(
            String::from_str("`").concat(self.database.as_str()).concat("`.`").concat(
                table,
            ).concat("`"),
        )
    }

    /// The KeeperMap advisory-lease table.
    pub fn keeper_lease_table(&self) -> (r: Result<String, String>)
        ensures
            r is Ok <==> (is_safe_ident(self.database@) && byte_len(self.database@) <= 64),
            r matches Ok(q) ==> q@ == ch_qualified(self.database@, keeper_lease_table_name()),
            r matches Err(m) ==> m@ == clickhouse_ident_message(self.database@),
    {
        self.qualified("udb_keeper_advisory_leases")
    }

    /// Keeper path of the lease table: `/udb/<database>/<instance>/advisory_leases`
    /// with both names sanitised into path components.
    pub fn keeper_lease_path(&self) -> (r: String)
        ensures
            r@ == "/udb/"@ + keeper_path_component_spec(self.database@) + "/"@
                + keeper_path_component_spec(self.instance_name@) + "/advisory_leases"@,
    {
        let db = safe_keeper_path_component(self.database.as_str());
        let inst = safe_keeper_path_component(self.instance_name.as_str());
        String::from_str("/udb/").concat(db.as_str()).concat("/").concat(inst.as_str()).concat(
            "/advisory_leases",
        )
    }

    /// Unix milliseconds now, for lease expiries and timestamp columns.
    pub fn now_unix_ms() -> i64 {
        clock::now_unix_ms()
    }

    /// Strict KeeperMap insert of a fresh lease row.
    pub fn keeper_insert_lease_sql(
        table: &str,
        lease_name: &str,
        owner_id: &str,
        expires_at: i64,
        token: &str,
    ) -> (r: String)
        ensures
            r@ == keeper_insert_lease_sql_spec(table@, lease_name@, owner_id@, expires_at, token@),
    {
        String::from_str("INSERT INTO ").concat(table).concat(
            " (lease_name, owner_id, expires_at, token) ",
        ).concat("SETTINGS keeper_map_strict_mode=1").concat(" VALUES (").concat(
            sql_lit(lease_name).as_str(),
        ).concat(", ").concat(sql_lit(owner_id).as_str()).concat(", ").concat(
            i64_to_decimal(expires_at).as_str(),
        ).concat(", ").concat(sql_lit(token).as_str()).concat(")")
    }

    /// Strict KeeperMap update of a lease row, conditional on the token the
    /// caller observed (the compare-and-set of the lease protocol).
    pub fn keeper_update_lease_sql(
        table: &str,
        lease_name: &str,
        owner_id: &str,
        expires_at: i64,
        token: &str,
        previous_token: &str,
    ) -> (r: String)
        ensures
            r@ == keeper_update_lease_sql_spec(
                table@,
                lease_name@,
                owner_id@,
                expires_at,
                token@,
                previous_token@,
            ),
    {
        String::from_str("ALTER TABLE ").concat(table).concat(" UPDATE owner_id = ").concat(
            sql_lit(owner_id).as_str(),
        ).concat(", expires_at = ").concat(i64_to_decimal(expires_at).as_str()).concat(
            ", token = ",
        ).concat(sql_lit(token).as_str()).concat(" WHERE lease_name = ").concat(
            sql_lit(lease_name).as_str(),
        ).concat(" AND token = ").concat(sql_lit(previous_token).as_str()).concat(" ").concat(
            "SETTINGS keeper_map_strict_mode=1",
        )
    }

    /// Read of one lease row.
    pub fn keeper_select_lease_sql(table: &str, lease_name: &str) -> (r: String)
        ensures
            r@ == keeper_select_lease_sql_spec(table@, lease_name@),
    {
        String::from_str("SELECT owner_id, expires_at, token FROM ").concat(table).concat(
            " WHERE lease_name = ",
        ).concat(sql_lit(lease_name).as_str())
    }

    /// Admin-audit log table.
    pub fn audit_table(&self) -> (r: Result<String, SystemStoreError>)
        ensures
            r is Ok <==> (is_safe_ident(self.database@) && byte_len(self.database@) <= 64),
            r matches Ok(q) ==> q@ == ch_qualified(self.database@, "udb_admin_audit_log"@),
            r matches Err(e) ==> (e matches SystemStoreError::Io { backend: b, source } && b@
                == "clickhouse"@ && source@ == "audit_table"@ + ": "@ + clickhouse_ident_message(
                self.database@,
            )),
    {
        match self.qualified("udb_admin_audit_log") {
            Ok(q) => Ok(q),
            Err(e) => Err(ch_err("audit_table", e.as_str())),
        }
    }

    /// Migration-runs table.
    pub fn runs_table(&self) -> (r: Result<String, SystemStoreError>)
        ensures
            r is Ok <==> (is_safe_ident(self.database@) && byte_len(self.database@) <= 64),
            r matches Ok(q) ==> q@ == ch_qualified(self.database@, "udb_migration_runs"@),
            r matches Err(e) ==> (e matches SystemStoreError::Io { backend: b, source } && b@
                == "clickhouse"@ && source@ == "runs_table"@ + ": "@ + clickhouse_ident_message(
                self.database@,
            )),
    {
        match self.qualified("udb_migration_runs") {
            Ok(q) => Ok(q),
            Err(e) => Err(ch_err("runs_table", e.as_str())),
        }
    }

    /// Migration op-ledger table.
    pub fn ledger_table(&self) -> (r: Result<String, SystemStoreError>)
        ensures
            r is Ok <==> (is_safe_ident(self.database@) && byte_len(self.database@) <= 64),
            r matches Ok(q) ==> q@ == ch_qualified(self.database@, "udb_migration_op_ledger"@),
            r matches Err(e) ==> (e matches SystemStoreError::Io { backend: b, source } && b@
                == "clickhouse"@ && source@ == "ledger_table"@ + ": "@ + clickhouse_ident_message(
                self.database@,
            )),
    {
        match self.qualified("udb_migration_op_ledger") {
            Ok(q) => Ok(q),
            Err(e) => Err(ch_err("ledger_table", e.as_str())),
        }
    }

    /// Migration op-ledger sequence table.
    pub fn op_seq_table(&self) -> (r: Result<String, SystemStoreError>)
        ensures
            r is Ok <==> (is_safe_ident(self.database@) && byte_len(self.database@) <= 64),
            r matches Ok(q) ==> q@ == ch_qualified(self.database@, "udb_migration_op_seq"@),
            r matches Err(e) ==> (e matches SystemStoreError::Io { backend: b, source } && b@
                == "clickhouse"@ && source@ == "op_seq_table"@ + ": "@ + clickhouse_ident_message(
                self.database@,
            )),
    {
        match self.qualified("udb_migration_op_seq") {
            Ok(q) => Ok(q),
            Err(e) => Err(ch_err("op_seq_table", e.as_str())),
        }
    }

    /// Projection-task table.
    pub fn projection_table(&self) -> (r: Result<String, SystemStoreError>)
        ensures
            r is Ok <==> (is_safe_ident(self.database@) && byte_len(self.database@) <= 64),
            r matches Ok(q) ==> q@ == ch_qualified(self.database@, "udb_projection_tasks"@),
            r matches Err(e) ==> (e matches SystemStoreError::Io { backend: b, source } && b@
                == "clickhouse"@ && source@ == "projection_table"@ + ": "@ + clickhouse_ident_message(
                self.database@,
            )),
    {
        match self.qualified("udb_projection_tasks") {
            Ok(q) => Ok(q),
            Err(e) => Err(ch_err("projection_table", e.as_str())),
        }
    }

    /// Saga table.
    pub fn saga_table(&self) -> (r: Result<String, SystemStoreError>)
        ensures
            r is Ok <==> (is_safe_ident(self.database@) && byte_len(self.database@) <= 64),
            r matches Ok(q) ==> q@ == ch_qualified(self.database@, "udb_sagas"@),
            r matches Err(e) ==> (e matches SystemStoreError::Io { backend: b, source } && b@
                == "clickhouse"@ && source@ == "saga_table"@ + ": "@ + clickhouse_ident_message(
                self.database@,
            )),
    {
        match self.qualified("udb_sagas") {
            Ok(q) => Ok(q),
            Err(e) => Err(ch_err("saga_table", e.as_str())),
        }
    }

    /// Durability token for the current outbox sequence.
    pub fn durability_token(&self, seq: i64) -> (t: DurabilityToken)
        ensures
            t.backend_label@ == "clickhouse"@,
            t.value@ == int_decimal(seq as int),
    {
        seq_durability_token("clickhouse", seq)
    }

    /// The validation half of `wait_for_token`: the target sequence of a
    /// ClickHouse token.
    pub fn wait_target(&self, token: &DurabilityToken) -> (r: Result<i64, String>)
        ensures
            r is Ok <==> seq_wait_target("clickhouse"@, token.backend_label@, token.value@) is Some,
            r matches Ok(v) ==> seq_wait_target("clickhouse"@, token.backend_label@, token.value@)
                == Some(v),
            !crate::text::eq_ignore_ascii_case_spec(token.backend_label@, "clickhouse"@) ==> (
            r matches Err(m) && m@ == crate::token::foreign_token_message(
                "ClickHouseCanonicalStore"@,
                token.backend_label@,
            )),
            crate::text::eq_ignore_ascii_case_spec(token.backend_label@, "clickhouse"@)
                && crate::text::parse_i64_spec(token.value@) is None ==> (r matches Err(m)
                && m@.len() >= crate::token::malformed_token_head("clickhouse"@, token.value@).len()
                && m@.subrange(0, crate::token::malformed_token_head("clickhouse"@, token.value@).len() as int)
                == crate::token::malformed_token_head("clickhouse"@, token.value@)),
    {
        seq_wait_target_of("ClickHouseCanonicalStore", "clickhouse", token, true)
    }
}

/// Map an executor error to a typed `SystemStoreError::Io` for the
/// `"clickhouse"` backend; `op` names the failed operation.
pub fn ch_err(op: &str, err: &str) -> (e: SystemStoreError)
    ensures
        e matches SystemStoreError::Io { backend: b, source } && b@ == "clickhouse"@ && source@
            == op@ + ": "@ + err@,
{
    io_error("clickhouse", op, err)
}


// ── Versioned task rows ─────────────────────────────────────────────────────

/// One full projection-task row as a versioned write carries it: every
/// column the table holds, JSON columns already rendered as text.
pub struct TaskVersionRow {
    pub task_id: String,
    pub idempotency_key: String,
    pub project_id: String,
    pub target_backend: String,
    pub target_instance: String,
    pub projection_kind: String,
    pub resource_name: String,
    pub operation: String,
    pub source_row_key: String,
    pub target_options: String,
    pub source_payload: String,
    pub source_checksum: String,
    pub status: ProjectionTaskStatus,
    pub retry_count: i32,
    pub last_error: String,
    pub created_at_ms: i64,
    pub updated_at_ms: i64,
    pub next_retry_at_ms: Option<i64>,
    pub completed_at_ms: Option<i64>,
    pub manifest_checksum: String,
    pub message_type: String,
    pub source_schema: String,
    pub source_table: String,
}

pub open spec fn opt_millis_spec(m: Option<i64>) -> i64 {
    match m {
        Some(v) => v,
        None => 0,
    }
}

/// The INSERT of a task row at `version`: every column, text as quoted
/// literals, times as epoch milliseconds (0 for an absent optional time).
pub open spec fn task_version_insert_spec(table: Seq<char>, r: TaskVersionRow, version: u64) -> Seq<char> {
    "INSERT INTO "@ + table + " (task_id, idempotency_key, project_id, target_backend, target_instance, projection_kind, resource_name, operation, source_row_key, target_options, source_payload, source_checksum, status, retry_count, last_error, created_at, updated_at, next_retry_at, completed_at, manifest_checksum, message_type, source_schema, source_table, version) VALUES ("@ + sql_lit_spec(r.task_id@) + ", "@ + sql_lit_spec(r.idempotency_key@) + ", "@ + sql_lit_spec(r.project_id@) + ", "@ + sql_lit_spec(r.target_backend@) + ", "@ + sql_lit_spec(r.target_instance@) + ", "@ + sql_lit_spec(r.projection_kind@) + ", "@ + sql_lit_spec(r.resource_name@) + ", "@ + sql_lit_spec(r.operation@) + ", "@ + sql_lit_spec(r.source_row_key@) + ", "@ + sql_lit_spec(r.target_options@) + ", "@ + sql_lit_spec(r.source_payload@) + ", "@ + sql_lit_spec(r.source_checksum@) + ", "@ + sql_lit_spec(projection_status_text(r.status)) + ", "@ + int_decimal(r.retry_count as int) + ", "@ + sql_lit_spec(r.last_error@) + ", "@ + int_decimal(r.created_at_ms as int) + ", "@ + int_decimal(r.updated_at_ms as int) + ", "@ + int_decimal(opt_millis_spec(r.next_retry_at_ms) as int) + ", "@ + int_decimal(opt_millis_spec(r.completed_at_ms) as int) + ", "@ + sql_lit_spec(r.manifest_checksum@) + ", "@ + sql_lit_spec(r.message_type@) + ", "@ + sql_lit_spec(r.source_schema@) + ", "@ + sql_lit_spec(r.source_table@) + ", "@ + nat_decimal(version as nat) + ")"@
}

/// Build the INSERT that writes `r` as version `version`; with the
/// `FINAL` read collapsing to the highest version, it supersedes the row.
pub fn task_version_insert(table: &str, r: &TaskVersionRow, version: u64) -> (s: String)
    ensures
        s@ == task_version_insert_spec(table@, *r, version),
{
    let v0 = sql_lit(r.task_id.as_str());
    let v1 = sql_lit(r.idempotency_key.as_str());
    let v2 = sql_lit(r.project_id.as_str());
    let v3 = sql_lit(r.target_backend.as_str());
    let v4 = sql_lit(r.target_instance.as_str());
    let v5 = sql_lit(r.projection_kind.as_str());
    let v6 = sql_lit(r.resource_name.as_str());
    let v7 = sql_lit(r.operation.as_str());
    let v8 = sql_lit(r.source_row_key.as_str());
    let v9 = sql_lit(r.target_options.as_str());
    let v10 = sql_lit(r.source_payload.as_str());
    let v11 = sql_lit(r.source_checksum.as_str());
    let v12 = sql_lit(r.status.as_str());
    let v13 = i64_to_decimal(r.retry_count as i64);
    let v14 = sql_lit(r.last_error.as_str());
    let v15 = i64_to_decimal(r.created_at_ms);
    let v16 = i64_to_decimal(r.updated_at_ms);
    let v17 = i64_to_decimal(opt_millis_lit(r.next_retry_at_ms));
    let v18 = i64_to_decimal(opt_millis_lit(r.completed_at_ms));
    let v19 = sql_lit(r.manifest_checksum.as_str());
    let v20 = sql_lit(r.message_type.as_str());
    let v21 = sql_lit(r.source_schema.as_str());
    let v22 = sql_lit(r.source_table.as_str());
    let vv = u64_to_decimal(version);
    String::from_str("INSERT INTO ").concat(table).concat(" (task_id, idempotency_key, project_id, target_backend, target_instance, projection_kind, resource_name, operation, source_row_key, target_options, source_payload, source_checksum, status, retry_count, last_error, created_at, updated_at, next_retry_at, completed_at, manifest_checksum, message_type, source_schema, source_table, version) VALUES (").concat(v0.as_str()).concat(", ").concat(v1.as_str()).concat(", ").concat(v2.as_str()).concat(", ").concat(v3.as_str()).concat(", ").concat(v4.as_str()).concat(", ").concat(v5.as_str()).concat(", ").concat(v6.as_str()).concat(", ").concat(v7.as_str()).concat(", ").concat(v8.as_str()).concat(", ").concat(v9.as_str()).concat(", ").concat(v10.as_str()).concat(", ").concat(v11.as_str()).concat(", ").concat(v12.as_str()).concat(", ").concat(v13.as_str()).concat(", ").concat(v14.as_str()).concat(", ").concat(v15.as_str()).concat(", ").concat(v16.as_str()).concat(", ").concat(v17.as_str()).concat(", ").concat(v18.as_str()).concat(", ").concat(v19.as_str()).concat(", ").concat(v20.as_str()).concat(", ").concat(v21.as_str()).concat(", ").concat(v22.as_str()).concat(", ").concat(vv.as_str()).concat(")")
}

/// The version a mutation writes: one past the version read (saturating).
pub fn next_task_version(version: u64) -> (r: u64)
    ensures
        r == if version == u64::MAX {
            u64::MAX
        } else {
            (version + 1) as u64
        },
        r >= 1,
{
    if version == u64::MAX {
        u64::MAX
    } else {
        version + 1
    }
}

/// A claim's versioned flip took effect when the re-read live row is
/// `IN_PROGRESS`; otherwise another writer won and the task is not claimed.
pub fn flip_confirmed(reread: Option<ProjectionTaskStatus>) -> (r: bool)
    ensures
        r == (reread == Some(ProjectionTaskStatus::InProgress)),
{
    match reread {
        Some(ProjectionTaskStatus::InProgress) => true,
        _ => false,
    }
}


/// The columns of a versioned task write, in the order its INSERT names
/// them.
pub open spec fn task_columns() -> Seq<Seq<char>> {
    seq![
        "task_id"@,
        "idempotency_key"@,
        "project_id"@,
        "target_backend"@,
        "target_instance"@,
        "projection_kind"@,
        "resource_name"@,
        "operation"@,
        "source_row_key"@,
        "target_options"@,
        "source_payload"@,
        "source_checksum"@,
        "status"@,
        "retry_count"@,
        "last_error"@,
        "created_at"@,
        "updated_at"@,
        "next_retry_at"@,
        "completed_at"@,
        "manifest_checksum"@,
        "message_type"@,
        "source_schema"@,
        "source_table"@,
        "version"@,
    ]
}

/// The value a versioned write of `r` at `version` stores in column `col`.
pub open spec fn task_column_value(r: TaskVersionRow, version: u64, col: Seq<char>) -> Seq<char> {
    if col == "task_id"@ {
        sql_lit_spec(r.task_id@)
    } else if col == "idempotency_key"@ {
        sql_lit_spec(r.idempotency_key@)
    } else if col == "project_id"@ {
        sql_lit_spec(r.project_id@)
    } else if col == "target_backend"@ {
        sql_lit_spec(r.target_backend@)
    } else if col == "target_instance"@ {
        sql_lit_spec(r.target_instance@)
    } else if col == "projection_kind"@ {
        sql_lit_spec(r.projection_kind@)
    } else if col == "resource_name"@ {
        sql_lit_spec(r.resource_name@)
    } else if col == "operation"@ {
        sql_lit_spec(r.operation@)
    } else if col == "source_row_key"@ {
        sql_lit_spec(r.source_row_key@)
    } else if col == "target_options"@ {
        sql_lit_spec(r.target_options@)
    } else if col == "source_payload"@ {
        sql_lit_spec(r.source_payload@)
    } else if col == "source_checksum"@ {
        sql_lit_spec(r.source_checksum@)
    } else if col == "status"@ {
        sql_lit_spec(projection_status_text(r.status))
    } else if col == "retry_count"@ {
        int_decimal(r.retry_count as int)
    } else if col == "last_error"@ {
        sql_lit_spec(r.last_error@)
    } else if col == "created_at"@ {
        int_decimal(r.created_at_ms as int)
    } else if col == "updated_at"@ {
        int_decimal(r.updated_at_ms as int)
    } else if col == "next_retry_at"@ {
        int_decimal(opt_millis_spec(r.next_retry_at_ms) as int)
    } else if col == "completed_at"@ {
        int_decimal(opt_millis_spec(r.completed_at_ms) as int)
    } else if col == "manifest_checksum"@ {
        sql_lit_spec(r.manifest_checksum@)
    } else if col == "message_type"@ {
        sql_lit_spec(r.message_type@)
    } else if col == "source_schema"@ {
        sql_lit_spec(r.source_schema@)
    } else if col == "source_table"@ {
        sql_lit_spec(r.source_table@)
    } else if col == "version"@ {
        nat_decimal(version as nat)
    } else {
        Seq::<char>::empty()
    }
}

/// `prefix` followed by the first `n` of `items`, separated by `", "`.
pub open spec fn join_upto(prefix: Seq<char>, items: Seq<Seq<char>>, n: nat) -> Seq<char>
    decreases n,
{
    if n == 0 {
        prefix
    } else if n == 1 {
        prefix + items[0]
    } else {
        join_upto(prefix, items, (n - 1) as nat) + ", "@ + items[n - 1]
    }
}

/// The column list of a versioned task write is `task_columns`, in order.
#[verifier::rlimit(50)]
pub proof fn lemma_task_columns_header()
    ensures
        join_upto(Seq::<char>::empty(), task_columns(), 24) == "task_id, idempotency_key, project_id, target_backend, target_instance, projection_kind, resource_name, operation, source_row_key, target_options, source_payload, source_checksum, status, retry_count, last_error, created_at, updated_at, next_retry_at, completed_at, manifest_checksum, message_type, source_schema, source_table, version"@,
{
    reveal_strlit("task_id");
    reveal_strlit("idempotency_key");
    reveal_strlit("project_id");
    reveal_strlit("target_backend");
    reveal_strlit("target_instance");
    reveal_strlit("projection_kind");
    reveal_strlit("resource_name");
    reveal_strlit("operation");
    reveal_strlit("source_row_key");
    reveal_strlit("target_options");
    reveal_strlit("source_payload");
    reveal_strlit("source_checksum");
    reveal_strlit("status");
    reveal_strlit("retry_count");
    reveal_strlit("last_error");
    reveal_strlit("created_at");
    reveal_strlit("updated_at");
    reveal_strlit("next_retry_at");
    reveal_strlit("completed_at");
    reveal_strlit("manifest_checksum");
    reveal_strlit("message_type");
    reveal_strlit("source_schema");
    reveal_strlit("source_table");
    reveal_strlit("version");
    reveal_strlit(", ");
    reveal_strlit("task_id, idempotency_key, project_id, target_backend, target_instance, projection_kind, resource_name, operation, source_row_key, target_options, source_payload, source_checksum, status, retry_count, last_error, created_at, updated_at, next_retry_at, completed_at, manifest_checksum, message_type, source_schema, source_table, version");
    reveal_with_fuel(join_upto, 25);
    assert(join_upto(Seq::<char>::empty(), task_columns(), 24) =~= "task_id, idempotency_key, project_id, target_backend, target_instance, projection_kind, resource_name, operation, source_row_key, target_options, source_payload, source_checksum, status, retry_count, last_error, created_at, updated_at, next_retry_at, completed_at, manifest_checksum, message_type, source_schema, source_table, version"@);
}

proof fn lemma_task_column_values(r: TaskVersionRow, version: u64)
    ensures
        ({
            let items = task_columns().map_values(|c: Seq<char>| task_column_value(r, version, c));
            &&& items.len() == 24
            &&& items[0] == sql_lit_spec(r.task_id@)
            &&& items[1] == sql_lit_spec(r.idempotency_key@)
            &&& items[2] == sql_lit_spec(r.project_id@)
            &&& items[3] == sql_lit_spec(r.target_backend@)
            &&& items[4] == sql_lit_spec(r.target_instance@)
            &&& items[5] == sql_lit_spec(r.projection_kind@)
            &&& items[6] == sql_lit_spec(r.resource_name@)
            &&& items[7] == sql_lit_spec(r.operation@)
            &&& items[8] == sql_lit_spec(r.source_row_key@)
            &&& items[9] == sql_lit_spec(r.target_options@)
            &&& items[10] == sql_lit_spec(r.source_payload@)
            &&& items[11] == sql_lit_spec(r.source_checksum@)
            &&& items[12] == sql_lit_spec(projection_status_text(r.status))
            &&& items[13] == int_decimal(r.retry_count as int)
            &&& items[14] == sql_lit_spec(r.last_error@)
            &&& items[15] == int_decimal(r.created_at_ms as int)
            &&& items[16] == int_decimal(r.updated_at_ms as int)
            &&& items[17] == int_decimal(opt_millis_spec(r.next_retry_at_ms) as int)
            &&& items[18] == int_decimal(opt_millis_spec(r.completed_at_ms) as int)
            &&& items[19] == sql_lit_spec(r.manifest_checksum@)
            &&& items[20] == sql_lit_spec(r.message_type@)
            &&& items[21] == sql_lit_spec(r.source_schema@)
            &&& items[22] == sql_lit_spec(r.source_table@)
            &&& items[23] == nat_decimal(version as nat)
        }),
{
    assert(task_column_value(r, version, "task_id"@) == sql_lit_spec(r.task_id@)) by {
        reveal_strlit("task_id");
    }
    assert(task_column_value(r, version, "idempotency_key"@) == sql_lit_spec(r.idempotency_key@)) by {
        reveal_strlit("idempotency_key");
        reveal_strlit("task_id");
        assert("idempotency_key"@.len() != "task_id"@.len());
    }
    assert(task_column_value(r, version, "project_id"@) == sql_lit_spec(r.project_id@)) by {
        reveal_strlit("project_id");
        reveal_strlit("task_id");
        assert("project_id"@.len() != "task_id"@.len());
        reveal_strlit("idempotency_key");
        assert("project_id"@.len() != "idempotency_key"@.len());
    }
    assert(task_column_value(r, version, "target_backend"@) == sql_lit_spec(r.target_backend@)) by {
        reveal_strlit("target_backend");
        reveal_strlit("task_id");
        assert("target_backend"@.len() != "task_id"@.len());
        reveal_strlit("idempotency_key");
        assert("target_backend"@.len() != "idempotency_key"@.len());
        reveal_strlit("project_id");
        assert("target_backend"@.len() != "project_id"@.len());
    }
    assert(task_column_value(r, version, "target_instance"@) == sql_lit_spec(r.target_instance@)) by {
        reveal_strlit("target_instance");
        reveal_strlit("task_id");
        assert("target_instance"@.len() != "task_id"@.len());
        reveal_strlit("idempotency_key");
        assert("target_instance"@[0] != "idempotency_key"@[0]);
        reveal_strlit("project_id");
        assert("target_instance"@.len() != "project_id"@.len());
        reveal_strlit("target_backend");
        assert("target_instance"@.len() != "target_backend"@.len());
    }
    assert(task_column_value(r, version, "projection_kind"@) == sql_lit_spec(r.projection_kind@)) by {
        reveal_strlit("projection_kind");
        reveal_strlit("task_id");
        assert("projection_kind"@.len() != "task_id"@.len());
        reveal_strlit("idempotency_key");
        assert("projection_kind"@[0] != "idempotency_key"@[0]);
        reveal_strlit("project_id");
        assert("projection_kind"@.len() != "project_id"@.len());
        reveal_strlit("target_backend");
        assert("projection_kind"@.len() != "target_backend"@.len());
        reveal_strlit("target_instance");
        assert("projection_kind"@[0] != "target_instance"@[0]);
    }
    assert(task_column_value(r, version, "resource_name"@) == sql_lit_spec(r.resource_name@)) by {
        reveal_strlit("resource_name");
        reveal_strlit("task_id");
        assert("resource_name"@.len() != "task_id"@.len());
        reveal_strlit("idempotency_key");
        assert("resource_name"@.len() != "idempotency_key"@.len());
        reveal_strlit("project_id");
        assert("resource_name"@.len() != "project_id"@.len());
        reveal_strlit("target_backend");
        assert("resource_name"@.len() != "target_backend"@.len());
        reveal_strlit("target_instance");
        assert("resource_name"@.len() != "target_instance"@.len());
        reveal_strlit("projection_kind");
        assert("resource_name"@.len() != "projection_kind"@.len());
    }
    assert(task_column_value(r, version, "operation"@) == sql_lit_spec(r.operation@)) by {
        reveal_strlit("operation");
        reveal_strlit("task_id");
        assert("operation"@.len() != "task_id"@.len());
        reveal_strlit("idempotency_key");
        assert("operation"@.len() != "idempotency_key"@.len());
        reveal_strlit("project_id");
        assert("operation"@.len() != "project_id"@.len());
        reveal_strlit("target_backend");
        assert("operation"@.len() != "target_backend"@.len());
        reveal_strlit("target_instance");
        assert("operation"@.len() != "target_instance"@.len());
        reveal_strlit("projection_kind");
        assert("operation"@.len() != "projection_kind"@.len());
        reveal_strlit("resource_name");
        assert("operation"@.len() != "resource_name"@.len());
    }
    assert(task_column_value(r, version, "source_row_key"@) == sql_lit_spec(r.source_row_key@)) by {
        reveal_strlit("source_row_key");
        reveal_strlit("task_id");
        assert("source_row_key"@.len() != "task_id"@.len());
        reveal_strlit("idempotency_key");
        assert("source_row_key"@.len() != "idempotency_key"@.len());
        reveal_strlit("project_id");
        assert("source_row_key"@.len() != "project_id"@.len());
        reveal_strlit("target_backend");
        assert("source_row_key"@[0] != "target_backend"@[0]);
        reveal_strlit("target_instance");
        assert("source_row_key"@.len() != "target_instance"@.len());
        reveal_strlit("projection_kind");
        assert("source_row_key"@.len() != "projection_kind"@.len());
        reveal_strlit("resource_name");
        assert("source_row_key"@.len() != "resource_name"@.len());
        reveal_strlit("operation");
        assert("source_row_key"@.len() != "operation"@.len());
    }
    assert(task_column_value(r, version, "target_options"@) == sql_lit_spec(r.target_options@)) by {
        reveal_strlit("target_options");
        reveal_strlit("task_id");
        assert("target_options"@.len() != "task_id"@.len());
        reveal_strlit("idempotency_key");
        assert("target_options"@.len() != "idempotency_key"@.len());
        reveal_strlit("project_id");
        assert("target_options"@.len() != "project_id"@.len());
        reveal_strlit("target_backend");
        assert("target_options"@[7] != "target_backend"@[7]);
        reveal_strlit("target_instance");
        assert("target_options"@.len() != "target_instance"@.len());
        reveal_strlit("projection_kind");
        assert("target_options"@.len() != "projection_kind"@.len());
        reveal_strlit("resource_name");
        assert("target_options"@.len() != "resource_name"@.len());
        reveal_strlit("operation");
        assert("target_options"@.len() != "operation"@.len());
        reveal_strlit("source_row_key");
        assert("target_options"@[0] != "source_row_key"@[0]);
    }
    assert(task_column_value(r, version, "source_payload"@) == sql_lit_spec(r.source_payload@)) by {
        reveal_strlit("source_payload");
        reveal_strlit("task_id");
        assert("source_payload"@.len() != "task_id"@.len());
        reveal_strlit("idempotency_key");
        assert("source_payload"@.len() != "idempotency_key"@.len());
        reveal_strlit("project_id");
        assert("source_payload"@.len() != "project_id"@.len());
        reveal_strlit("target_backend");
        assert("source_payload"@[0] != "target_backend"@[0]);
        reveal_strlit("target_instance");
        assert("source_payload"@.len() != "target_instance"@.len());
        reveal_strlit("projection_kind");
        assert("source_payload"@.len() != "projection_kind"@.len());
        reveal_strlit("resource_name");
        assert("source_payload"@.len() != "resource_name"@.len());
        reveal_strlit("operation");
        assert("source_payload"@.len() != "operation"@.len());
        reveal_strlit("source_row_key");
        assert("source_payload"@[7] != "source_row_key"@[7]);
        reveal_strlit("target_options");
        assert("source_payload"@[0] != "target_options"@[0]);
    }
    assert(task_column_value(r, version, "source_checksum"@) == sql_lit_spec(r.source_checksum@)) by {
        reveal_strlit("source_checksum");
        reveal_strlit("task_id");
        assert("source_checksum"@.len() != "task_id"@.len());
        reveal_strlit("idempotency_key");
        assert("source_checksum"@[0] != "idempotency_key"@[0]);
        reveal_strlit("project_id");
        assert("source_checksum"@.len() != "project_id"@.len());
        reveal_strlit("target_backend");
        assert("source_checksum"@.len() != "target_backend"@.len());
        reveal_strlit("target_instance");
        assert("source_checksum"@[0] != "target_instance"@[0]);
        reveal_strlit("projection_kind");
        assert("source_checksum"@[0] != "projection_kind"@[0]);
        reveal_strlit("resource_name");
        assert("source_checksum"@.len() != "resource_name"@.len());
        reveal_strlit("operation");
        assert("source_checksum"@.len() != "operation"@.len());
        reveal_strlit("source_row_key");
        assert("source_checksum"@.len() != "source_row_key"@.len());
        reveal_strlit("target_options");
        assert("source_checksum"@.len() != "target_options"@.len());
        reveal_strlit("source_payload");
        assert("source_checksum"@.len() != "source_payload"@.len());
    }
    assert(task_column_value(r, version, "status"@) == sql_lit_spec(projection_status_text(r.status))) by {
        reveal_strlit("status");
        reveal_strlit("task_id");
        assert("status"@.len() != "task_id"@.len());
        reveal_strlit("idempotency_key");
        assert("status"@.len() != "idempotency_key"@.len());
        reveal_strlit("project_id");
        assert("status"@.len() != "project_id"@.len());
        reveal_strlit("target_backend");
        assert("status"@.len() != "target_backend"@.len());
        reveal_strlit("target_instance");
        assert("status"@.len() != "target_instance"@.len());
        reveal_strlit("projection_kind");
        assert("status"@.len() != "projection_kind"@.len());
        reveal_strlit("resource_name");
        assert("status"@.len() != "resource_name"@.len());
        reveal_strlit("operation");
        assert("status"@.len() != "operation"@.len());
        reveal_strlit("source_row_key");
        assert("status"@.len() != "source_row_key"@.len());
        reveal_strlit("target_options");
        assert("status"@.len() != "target_options"@.len());
        reveal_strlit("source_payload");
        assert("status"@.len() != "source_payload"@.len());
        reveal_strlit("source_checksum");
        assert("status"@.len() != "source_checksum"@.len());
    }
    assert(task_column_value(r, version, "retry_count"@) == int_decimal(r.retry_count as int)) by {
        reveal_strlit("retry_count");
        reveal_strlit("task_id");
        assert("retry_count"@.len() != "task_id"@.len());
        reveal_strlit("idempotency_key");
        assert("retry_count"@.len() != "idempotency_key"@.len());
        reveal_strlit("project_id");
        assert("retry_count"@.len() != "project_id"@.len());
        reveal_strlit("target_backend");
        assert("retry_count"@.len() != "target_backend"@.len());
        reveal_strlit("target_instance");
        assert("retry_count"@.len() != "target_instance"@.len());
        reveal_strlit("projection_kind");
        assert("retry_count"@.len() != "projection_kind"@.len());
        reveal_strlit("resource_name");
        assert("retry_count"@.len() != "resource_name"@.len());
        reveal_strlit("operation");
        assert("retry_count"@.len() != "operation"@.len());
        reveal_strlit("source_row_key");
        assert("retry_count"@.len() != "source_row_key"@.len());
        reveal_strlit("target_options");
        assert("retry_count"@.len() != "target_options"@.len());
        reveal_strlit("source_payload");
        assert("retry_count"@.len() != "source_payload"@.len());
        reveal_strlit("source_checksum");
        assert("retry_count"@.len() != "source_checksum"@.len());
        reveal_strlit("status");
        assert("retry_count"@.len() != "status"@.len());
    }
    assert(task_column_value(r, version, "last_error"@) == sql_lit_spec(r.last_error@)) by {
        reveal_strlit("last_error");
        reveal_strlit("task_id");
        assert("last_error"@.len() != "task_id"@.len());
        reveal_strlit("idempotency_key");
        assert("last_error"@.len() != "idempotency_key"@.len());
        reveal_strlit("project_id");
        assert("last_error"@[0] != "project_id"@[0]);
        reveal_strlit("target_backend");
        assert("last_error"@.len() != "target_backend"@.len());
        reveal_strlit("target_instance");
        assert("last_error"@.len() != "target_instance"@.len());
        reveal_strlit("projection_kind");
        assert("last_error"@.len() != "projection_kind"@.len());
        reveal_strlit("resource_name");
        assert("last_error"@.len() != "resource_name"@.len());
        reveal_strlit("operation");
        assert("last_error"@.len() != "operation"@.len());
        reveal_strlit("source_row_key");
        assert("last_error"@.len() != "source_row_key"@.len());
        reveal_strlit("target_options");
        assert("last_error"@.len() != "target_options"@.len());
        reveal_strlit("source_payload");
        assert("last_error"@.len() != "source_payload"@.len());
        reveal_strlit("source_checksum");
        assert("last_error"@.len() != "source_checksum"@.len());
        reveal_strlit("status");
        assert("last_error"@.len() != "status"@.len());
        reveal_strlit("retry_count");
        assert("last_error"@.len() != "retry_count"@.len());
    }
    assert(task_column_value(r, version, "created_at"@) == int_decimal(r.created_at_ms as int)) by {
        reveal_strlit("created_at");
        reveal_strlit("task_id");
        assert("created_at"@.len() != "task_id"@.len());
        reveal_strlit("idempotency_key");
        assert("created_at"@.len() != "idempotency_key"@.len());
        reveal_strlit("project_id");
        assert("created_at"@[0] != "project_id"@[0]);
        reveal_strlit("target_backend");
        assert("created_at"@.len() != "target_backend"@.len());
        reveal_strlit("target_instance");
        assert("created_at"@.len() != "target_instance"@.len());
        reveal_strlit("projection_kind");
        assert("created_at"@.len() != "projection_kind"@.len());
        reveal_strlit("resource_name");
        assert("created_at"@.len() != "resource_name"@.len());
        reveal_strlit("operation");
        assert("created_at"@.len() != "operation"@.len());
        reveal_strlit("source_row_key");
        assert("created_at"@.len() != "source_row_key"@.len());
        reveal_strlit("target_options");
        assert("created_at"@.len() != "target_options"@.len());
        reveal_strlit("source_payload");
        assert("created_at"@.len() != "source_payload"@.len());
        reveal_strlit("source_checksum");
        assert("created_at"@.len() != "source_checksum"@.len());
        reveal_strlit("status");
        assert("created_at"@.len() != "status"@.len());
        reveal_strlit("retry_count");
        assert("created_at"@.len() != "retry_count"@.len());
        reveal_strlit("last_error");
        assert("created_at"@[0] != "last_error"@[0]);
    }
    assert(task_column_value(r, version, "updated_at"@) == int_decimal(r.updated_at_ms as int)) by {
        reveal_strlit("updated_at");
        reveal_strlit("task_id");
        assert("updated_at"@.len() != "task_id"@.len());
        reveal_strlit("idempotency_key");
        assert("updated_at"@.len() != "idempotency_key"@.len());
        reveal_strlit("project_id");
        assert("updated_at"@[0] != "project_id"@[0]);
        reveal_strlit("target_backend");
        assert("updated_at"@.len() != "target_backend"@.len());
        reveal_strlit("target_instance");
        assert("updated_at"@.len() != "target_instance"@.len());
        reveal_strlit("projection_kind");
        assert("updated_at"@.len() != "projection_kind"@.len());
        reveal_strlit("resource_name");
        assert("updated_at"@.len() != "resource_name"@.len());
        reveal_strlit("operation");
        assert("updated_at"@.len() != "operation"@.len());
        reveal_strlit("source_row_key");
        assert("updated_at"@.len() != "source_row_key"@.len());
        reveal_strlit("target_options");
        assert("updated_at"@.len() != "target_options"@.len());
        reveal_strlit("source_payload");
        assert("updated_at"@.len() != "source_payload"@.len());
        reveal_strlit("source_checksum");
        assert("updated_at"@.len() != "source_checksum"@.len());
        reveal_strlit("status");
        assert("updated_at"@.len() != "status"@.len());
        reveal_strlit("retry_count");
        assert("updated_at"@.len() != "retry_count"@.len());
        reveal_strlit("last_error");
        assert("updated_at"@[0] != "last_error"@[0]);
        reveal_strlit("created_at");
        assert("updated_at"@[0] != "created_at"@[0]);
    }
    assert(task_column_value(r, version, "next_retry_at"@) == int_decimal(opt_millis_spec(r.next_retry_at_ms) as int)) by {
        reveal_strlit("next_retry_at");
        reveal_strlit("task_id");
        assert("next_retry_at"@.len() != "task_id"@.len());
        reveal_strlit("idempotency_key");
        assert("next_retry_at"@.len() != "idempotency_key"@.len());
        reveal_strlit("project_id");
        assert("next_retry_at"@.len() != "project_id"@.len());
        reveal_strlit("target_backend");
        assert("next_retry_at"@.len() != "target_backend"@.len());
        reveal_strlit("target_instance");
        assert("next_retry_at"@.len() != "target_instance"@.len());
        reveal_strlit("projection_kind");
        assert("next_retry_at"@.len() != "projection_kind"@.len());
        reveal_strlit("resource_name");
        assert("next_retry_at"@[0] != "resource_name"@[0]);
        reveal_strlit("operation");
        assert("next_retry_at"@.len() != "operation"@.len());
        reveal_strlit("source_row_key");
        assert("next_retry_at"@.len() != "source_row_key"@.len());
        reveal_strlit("target_options");
        assert("next_retry_at"@.len() != "target_options"@.len());
        reveal_strlit("source_payload");
        assert("next_retry_at"@.len() != "source_payload"@.len());
        reveal_strlit("source_checksum");
        assert("next_retry_at"@.len() != "source_checksum"@.len());
        reveal_strlit("status");
        assert("next_retry_at"@.len() != "status"@.len());
        reveal_strlit("retry_count");
        assert("next_retry_at"@.len() != "retry_count"@.len());
        reveal_strlit("last_error");
        assert("next_retry_at"@.len() != "last_error"@.len());
        reveal_strlit("created_at");
        assert("next_retry_at"@.len() != "created_at"@.len());
        reveal_strlit("updated_at");
        assert("next_retry_at"@.len() != "updated_at"@.len());
    }
    assert(task_column_value(r, version, "completed_at"@) == int_decimal(opt_millis_spec(r.completed_at_ms) as int)) by {
        reveal_strlit("completed_at");
        reveal_strlit("task_id");
        assert("completed_at"@.len() != "task_id"@.len());
        reveal_strlit("idempotency_key");
        assert("completed_at"@.len() != "idempotency_key"@.len());
        reveal_strlit("project_id");
        assert("completed_at"@.len() != "project_id"@.len());
        reveal_strlit("target_backend");
        assert("completed_at"@.len() != "target_backend"@.len());
        reveal_strlit("target_instance");
        assert("completed_at"@.len() != "target_instance"@.len());
        reveal_strlit("projection_kind");
        assert("completed_at"@.len() != "projection_kind"@.len());
        reveal_strlit("resource_name");
        assert("completed_at"@.len() != "resource_name"@.len());
        reveal_strlit("operation");
        assert("completed_at"@.len() != "operation"@.len());
        reveal_strlit("source_row_key");
        assert("completed_at"@.len() != "source_row_key"@.len());
        reveal_strlit("target_options");
        assert("completed_at"@.len() != "target_options"@.len());
        reveal_strlit("source_payload");
        assert("completed_at"@.len() != "source_payload"@.len());
        reveal_strlit("source_checksum");
        assert("completed_at"@.len() != "source_checksum"@.len());
        reveal_strlit("status");
        assert("completed_at"@.len() != "status"@.len());
        reveal_strlit("retry_count");
        assert("completed_at"@.len() != "retry_count"@.len());
        reveal_strlit("last_error");
        assert("completed_at"@.len() != "last_error"@.len());
        reveal_strlit("created_at");
        assert("completed_at"@.len() != "created_at"@.len());
        reveal_strlit("updated_at");
        assert("completed_at"@.len() != "updated_at"@.len());
        reveal_strlit("next_retry_at");
        assert("completed_at"@.len() != "next_retry_at"@.len());
    }
    assert(task_column_value(r, version, "manifest_checksum"@) == sql_lit_spec(r.manifest_checksum@)) by {
        reveal_strlit("manifest_checksum");
        reveal_strlit("task_id");
        assert("manifest_checksum"@.len() != "task_id"@.len());
        reveal_strlit("idempotency_key");
        assert("manifest_checksum"@.len() != "idempotency_key"@.len());
        reveal_strlit("project_id");
        assert("manifest_checksum"@.len() != "project_id"@.len());
        reveal_strlit("target_backend");
        assert("manifest_checksum"@.len() != "target_backend"@.len());
        reveal_strlit("target_instance");
        assert("manifest_checksum"@.len() != "target_instance"@.len());
        reveal_strlit("projection_kind");
        assert("manifest_checksum"@.len() != "projection_kind"@.len());
        reveal_strlit("resource_name");
        assert("manifest_checksum"@.len() != "resource_name"@.len());
        reveal_strlit("operation");
        assert("manifest_checksum"@.len() != "operation"@.len());
        reveal_strlit("source_row_key");
        assert("manifest_checksum"@.len() != "source_row_key"@.len());
        reveal_strlit("target_options");
        assert("manifest_checksum"@.len() != "target_options"@.len());
        reveal_strlit("source_payload");
        assert("manifest_checksum"@.len() != "source_payload"@.len());
        reveal_strlit("source_checksum");
        assert("manifest_checksum"@.len() != "source_checksum"@.len());
        reveal_strlit("status");
        assert("manifest_checksum"@.len() != "status"@.len());
        reveal_strlit("retry_count");
        assert("manifest_checksum"@.len() != "retry_count"@.len());
        reveal_strlit("last_error");
        assert("manifest_checksum"@.len() != "last_error"@.len());
        reveal_strlit("created_at");
        assert("manifest_checksum"@.len() != "created_at"@.len());
        reveal_strlit("updated_at");
        assert("manifest_checksum"@.len() != "updated_at"@.len());
        reveal_strlit("next_retry_at");
        assert("manifest_checksum"@.len() != "next_retry_at"@.len());
        reveal_strlit("completed_at");
        assert("manifest_checksum"@.len() != "completed_at"@.len());
    }
    assert(task_column_value(r, version, "message_type"@) == sql_lit_spec(r.message_type@)) by {
        reveal_strlit("message_type");
        reveal_strlit("task_id");
        assert("message_type"@.len() != "task_id"@.len());
        reveal_strlit("idempotency_key");
        assert("message_type"@.len() != "idempotency_key"@.len());
        reveal_strlit("project_id");
        assert("message_type"@.len() != "project_id"@.len());
        reveal_strlit("target_backend");
        assert("message_type"@.len() != "target_backend"@.len());
        reveal_strlit("target_instance");
        assert("message_type"@.len() != "target_instance"@.len());
        reveal_strlit("projection_kind");
        assert("message_type"@.len() != "projection_kind"@.len());
        reveal_strlit("resource_name");
        assert("message_type"@.len() != "resource_name"@.len());
        reveal_strlit("operation");
        assert("message_type"@.len() != "operation"@.len());
        reveal_strlit("source_row_key");
        assert("message_type"@.len() != "source_row_key"@.len());
        reveal_strlit("target_options");
        assert("message_type"@.len() != "target_options"@.len());
        reveal_strlit("source_payload");
        assert("message_type"@.len() != "source_payload"@.len());
        reveal_strlit("source_checksum");
        assert("message_type"@.len() != "source_checksum"@.len());
        reveal_strlit("status");
        assert("message_type"@.len() != "status"@.len());
        reveal_strlit("retry_count");
        assert("message_type"@.len() != "retry_count"@.len());
        reveal_strlit("last_error");
        assert("message_type"@.len() != "last_error"@.len());
        reveal_strlit("created_at");
        assert("message_type"@.len() != "created_at"@.len());
        reveal_strlit("updated_at");
        assert("message_type"@.len() != "updated_at"@.len());
        reveal_strlit("next_retry_at");
        assert("message_type"@.len() != "next_retry_at"@.len());
        reveal_strlit("completed_at");
        assert("message_type"@[0] != "completed_at"@[0]);
        reveal_strlit("manifest_checksum");
        assert("message_type"@.len() != "manifest_checksum"@.len());
    }
    assert(task_column_value(r, version, "source_schema"@) == sql_lit_spec(r.source_schema@)) by {
        reveal_strlit("source_schema");
        reveal_strlit("task_id");
        assert("source_schema"@.len() != "task_id"@.len());
        reveal_strlit("idempotency_key");
        assert("source_schema"@.len() != "idempotency_key"@.len());
        reveal_strlit("project_id");
        assert("source_schema"@.len() != "project_id"@.len());
        reveal_strlit("target_backend");
        assert("source_schema"@.len() != "target_backend"@.len());
        reveal_strlit("target_instance");
        assert("source_schema"@.len() != "target_instance"@.len());
        reveal_strlit("projection_kind");
        assert("source_schema"@.len() != "projection_kind"@.len());
        reveal_strlit("resource_name");
        assert("source_schema"@[0] != "resource_name"@[0]);
        reveal_strlit("operation");
        assert("source_schema"@.len() != "operation"@.len());
        reveal_strlit("source_row_key");
        assert("source_schema"@.len() != "source_row_key"@.len());
        reveal_strlit("target_options");
        assert("source_schema"@.len() != "target_options"@.len());
        reveal_strlit("source_payload");
        assert("source_schema"@.len() != "source_payload"@.len());
        reveal_strlit("source_checksum");
        assert("source_schema"@.len() != "source_checksum"@.len());
        reveal_strlit("status");
        assert("source_schema"@.len() != "status"@.len());
        reveal_strlit("retry_count");
        assert("source_schema"@.len() != "retry_count"@.len());
        reveal_strlit("last_error");
        assert("source_schema"@.len() != "last_error"@.len());
        reveal_strlit("created_at");
        assert("source_schema"@.len() != "created_at"@.len());
        reveal_strlit("updated_at");
        assert("source_schema"@.len() != "updated_at"@.len());
        reveal_strlit("next_retry_at");
        assert("source_schema"@[0] != "next_retry_at"@[0]);
        reveal_strlit("completed_at");
        assert("source_schema"@.len() != "completed_at"@.len());
        reveal_strlit("manifest_checksum");
        assert("source_schema"@.len() != "manifest_checksum"@.len());
        reveal_strlit("message_type");
        assert("source_schema"@.len() != "message_type"@.len());
    }
    assert(task_column_value(r, version, "source_table"@) == sql_lit_spec(r.source_table@)) by {
        reveal_strlit("source_table");
        reveal_strlit("task_id");
        assert("source_table"@.len() != "task_id"@.len());
        reveal_strlit("idempotency_key");
        assert("source_table"@.len() != "idempotency_key"@.len());
        reveal_strlit("project_id");
        assert("source_table"@.len() != "project_id"@.len());
        reveal_strlit("target_backend");
        assert("source_table"@.len() != "target_backend"@.len());
        reveal_strlit("target_instance");
        assert("source_table"@.len() != "target_instance"@.len());
        reveal_strlit("projection_kind");
        assert("source_table"@.len() != "projection_kind"@.len());
        reveal_strlit("resource_name");
        assert("source_table"@.len() != "resource_name"@.len());
        reveal_strlit("operation");
        assert("source_table"@.len() != "operation"@.len());
        reveal_strlit("source_row_key");
        assert("source_table"@.len() != "source_row_key"@.len());
        reveal_strlit("target_options");
        assert("source_table"@.len() != "target_options"@.len());
        reveal_strlit("source_payload");
        assert("source_table"@.len() != "source_payload"@.len());
        reveal_strlit("source_checksum");
        assert("source_table"@.len() != "source_checksum"@.len());
        reveal_strlit("status");
        assert("source_table"@.len() != "status"@.len());
        reveal_strlit("retry_count");
        assert("source_table"@.len() != "retry_count"@.len());
        reveal_strlit("last_error");
        assert("source_table"@.len() != "last_error"@.len());
        reveal_strlit("created_at");
        assert("source_table"@.len() != "created_at"@.len());
        reveal_strlit("updated_at");
        assert("source_table"@.len() != "updated_at"@.len());
        reveal_strlit("next_retry_at");
        assert("source_table"@.len() != "next_retry_at"@.len());
        reveal_strlit("completed_at");
        assert("source_table"@[0] != "completed_at"@[0]);
        reveal_strlit("manifest_checksum");
        assert("source_table"@.len() != "manifest_checksum"@.len());
        reveal_strlit("message_type");
        assert("source_table"@[0] != "message_type"@[0]);
        reveal_strlit("source_schema");
        assert("source_table"@.len() != "source_schema"@.len());
    }
    assert(task_column_value(r, version, "version"@) == nat_decimal(version as nat)) by {
        reveal_strlit("version");
        reveal_strlit("task_id");
        assert("version"@[0] != "task_id"@[0]);
        reveal_strlit("idempotency_key");
        assert("version"@.len() != "idempotency_key"@.len());
        reveal_strlit("project_id");
        assert("version"@.len() != "project_id"@.len());
        reveal_strlit("target_backend");
        assert("version"@.len() != "target_backend"@.len());
        reveal_strlit("target_instance");
        assert("version"@.len() != "target_instance"@.len());
        reveal_strlit("projection_kind");
        assert("version"@.len() != "projection_kind"@.len());
        reveal_strlit("resource_name");
        assert("version"@.len() != "resource_name"@.len());
        reveal_strlit("operation");
        assert("version"@.len() != "operation"@.len());
        reveal_strlit("source_row_key");
        assert("version"@.len() != "source_row_key"@.len());
        reveal_strlit("target_options");
        assert("version"@.len() != "target_options"@.len());
        reveal_strlit("source_payload");
        assert("version"@.len() != "source_payload"@.len());
        reveal_strlit("source_checksum");
        assert("version"@.len() != "source_checksum"@.len());
        reveal_strlit("status");
        assert("version"@.len() != "status"@.len());
        reveal_strlit("retry_count");
        assert("version"@.len() != "retry_count"@.len());
        reveal_strlit("last_error");
        assert("version"@.len() != "last_error"@.len());
        reveal_strlit("created_at");
        assert("version"@.len() != "created_at"@.len());
        reveal_strlit("updated_at");
        assert("version"@.len() != "updated_at"@.len());
        reveal_strlit("next_retry_at");
        assert("version"@.len() != "next_retry_at"@.len());
        reveal_strlit("completed_at");
        assert("version"@.len() != "completed_at"@.len());
        reveal_strlit("manifest_checksum");
        assert("version"@.len() != "manifest_checksum"@.len());
        reveal_strlit("message_type");
        assert("version"@.len() != "message_type"@.len());
        reveal_strlit("source_schema");
        assert("version"@.len() != "source_schema"@.len());
        reveal_strlit("source_table");
        assert("version"@.len() != "source_table"@.len());
    }
}

proof fn lemma_task_insert_prefix(table: Seq<char>)
    ensures
        "INSERT INTO "@ + table + " ("@ + join_upto(Seq::<char>::empty(), task_columns(), 24)
            + ") VALUES ("@ == "INSERT INTO "@ + table + " (task_id, idempotency_key, project_id, target_backend, target_instance, projection_kind, resource_name, operation, source_row_key, target_options, source_payload, source_checksum, status, retry_count, last_error, created_at, updated_at, next_retry_at, completed_at, manifest_checksum, message_type, source_schema, source_table, version) VALUES ("@,
{
    lemma_task_columns_header();
    reveal_strlit(" (");
    reveal_strlit(") VALUES (");
    reveal_strlit("task_id, idempotency_key, project_id, target_backend, target_instance, projection_kind, resource_name, operation, source_row_key, target_options, source_payload, source_checksum, status, retry_count, last_error, created_at, updated_at, next_retry_at, completed_at, manifest_checksum, message_type, source_schema, source_table, version");
    reveal_strlit(" (task_id, idempotency_key, project_id, target_backend, target_instance, projection_kind, resource_name, operation, source_row_key, target_options, source_payload, source_checksum, status, retry_count, last_error, created_at, updated_at, next_retry_at, completed_at, manifest_checksum, message_type, source_schema, source_table, version) VALUES (");
    assert(" ("@ + "task_id, idempotency_key, project_id, target_backend, target_instance, projection_kind, resource_name, operation, source_row_key, target_options, source_payload, source_checksum, status, retry_count, last_error, created_at, updated_at, next_retry_at, completed_at, manifest_checksum, message_type, source_schema, source_table, version"@ + ") VALUES ("@ =~= " (task_id, idempotency_key, project_id, target_backend, target_instance, projection_kind, resource_name, operation, source_row_key, target_options, source_payload, source_checksum, status, retry_count, last_error, created_at, updated_at, next_retry_at, completed_at, manifest_checksum, message_type, source_schema, source_table, version) VALUES ("@);
    assert("INSERT INTO "@ + table + " ("@ + "task_id, idempotency_key, project_id, target_backend, target_instance, projection_kind, resource_name, operation, source_row_key, target_options, source_payload, source_checksum, status, retry_count, last_error, created_at, updated_at, next_retry_at, completed_at, manifest_checksum, message_type, source_schema, source_table, version"@ + ") VALUES ("@ =~= "INSERT INTO "@ + table
        + " (task_id, idempotency_key, project_id, target_backend, target_instance, projection_kind, resource_name, operation, source_row_key, target_options, source_payload, source_checksum, status, retry_count, last_error, created_at, updated_at, next_retry_at, completed_at, manifest_checksum, message_type, source_schema, source_table, version) VALUES ("@);
}

/// A versioned task write names every column of the row once, in the
/// order of `task_columns`, and stores under each column that column's
/// value of the row: the literal under `target_backend` is the row's
/// backend, the one under `target_instance` its instance, and so on for
/// every column, with the version last.
#[verifier::rlimit(50)]
pub proof fn lemma_task_version_insert_pairs_columns_with_values(
    table: Seq<char>,
    r: TaskVersionRow,
    version: u64,
)
    ensures
        task_version_insert_spec(table, r, version) == join_upto(
            "INSERT INTO "@ + table + " ("@ + join_upto(Seq::<char>::empty(), task_columns(), 24)
                + ") VALUES ("@,
            task_columns().map_values(|c: Seq<char>| task_column_value(r, version, c)),
            24,
        ) + ")"@,
{
    let items = task_columns().map_values(|c: Seq<char>| task_column_value(r, version, c));
    lemma_task_column_values(r, version);
    lemma_task_insert_prefix(table);
    let p2 = "INSERT INTO "@ + table + " (task_id, idempotency_key, project_id, target_backend, target_instance, projection_kind, resource_name, operation, source_row_key, target_options, source_payload, source_checksum, status, retry_count, last_error, created_at, updated_at, next_retry_at, completed_at, manifest_checksum, message_type, source_schema, source_table, version) VALUES ("@;
    assert(join_upto(p2, items, 1) == p2 + sql_lit_spec(r.task_id@));
    assert(join_upto(p2, items, 2) == p2 + sql_lit_spec(r.task_id@) + ", "@ + sql_lit_spec(r.idempotency_key@));
    assert(join_upto(p2, items, 3) == p2 + sql_lit_spec(r.task_id@) + ", "@ + sql_lit_spec(r.idempotency_key@) + ", "@ + sql_lit_spec(r.project_id@));
    assert(join_upto(p2, items, 4) == p2 + sql_lit_spec(r.task_id@) + ", "@ + sql_lit_spec(r.idempotency_key@) + ", "@ + sql_lit_spec(r.project_id@) + ", "@ + sql_lit_spec(r.target_backend@));
    assert(join_upto(p2, items, 5) == p2 + sql_lit_spec(r.task_id@) + ", "@ + sql_lit_spec(r.idempotency_key@) + ", "@ + sql_lit_spec(r.project_id@) + ", "@ + sql_lit_spec(r.target_backend@) + ", "@ + sql_lit_spec(r.target_instance@));
    assert(join_upto(p2, items, 6) == p2 + sql_lit_spec(r.task_id@) + ", "@ + sql_lit_spec(r.idempotency_key@) + ", "@ + sql_lit_spec(r.project_id@) + ", "@ + sql_lit_spec(r.target_backend@) + ", "@ + sql_lit_spec(r.target_instance@) + ", "@ + sql_lit_spec(r.projection_kind@));
    assert(join_upto(p2, items, 7) == p2 + sql_lit_spec(r.task_id@) + ", "@ + sql_lit_spec(r.idempotency_key@) + ", "@ + sql_lit_spec(r.project_id@) + ", "@ + sql_lit_spec(r.target_backend@) + ", "@ + sql_lit_spec(r.target_instance@) + ", "@ + sql_lit_spec(r.projection_kind@) + ", "@ + sql_lit_spec(r.resource_name@));
    assert(join_upto(p2, items, 8) == p2 + sql_lit_spec(r.task_id@) + ", "@ + sql_lit_spec(r.idempotency_key@) + ", "@ + sql_lit_spec(r.project_id@) + ", "@ + sql_lit_spec(r.target_backend@) + ", "@ + sql_lit_spec(r.target_instance@) + ", "@ + sql_lit_spec(r.projection_kind@) + ", "@ + sql_lit_spec(r.resource_name@) + ", "@ + sql_lit_spec(r.operation@));
    assert(join_upto(p2, items, 9) == p2 + sql_lit_spec(r.task_id@) + ", "@ + sql_lit_spec(r.idempotency_key@) + ", "@ + sql_lit_spec(r.project_id@) + ", "@ + sql_lit_spec(r.target_backend@) + ", "@ + sql_lit_spec(r.target_instance@) + ", "@ + sql_lit_spec(r.projection_kind@) + ", "@ + sql_lit_spec(r.resource_name@) + ", "@ + sql_lit_spec(r.operation@) + ", "@ + sql_lit_spec(r.source_row_key@));
    assert(join_upto(p2, items, 10) == p2 + sql_lit_spec(r.task_id@) + ", "@ + sql_lit_spec(r.idempotency_key@) + ", "@ + sql_lit_spec(r.project_id@) + ", "@ + sql_lit_spec(r.target_backend@) + ", "@ + sql_lit_spec(r.target_instance@) + ", "@ + sql_lit_spec(r.projection_kind@) + ", "@ + sql_lit_spec(r.resource_name@) + ", "@ + sql_lit_spec(r.operation@) + ", "@ + sql_lit_spec(r.source_row_key@) + ", "@ + sql_lit_spec(r.target_options@));
    assert(join_upto(p2, items, 11) == p2 + sql_lit_spec(r.task_id@) + ", "@ + sql_lit_spec(r.idempotency_key@) + ", "@ + sql_lit_spec(r.project_id@) + ", "@ + sql_lit_spec(r.target_backend@) + ", "@ + sql_lit_spec(r.target_instance@) + ", "@ + sql_lit_spec(r.projection_kind@) + ", "@ + sql_lit_spec(r.resource_name@) + ", "@ + sql_lit_spec(r.operation@) + ", "@ + sql_lit_spec(r.source_row_key@) + ", "@ + sql_lit_spec(r.target_options@) + ", "@ + sql_lit_spec(r.source_payload@));
    assert(join_upto(p2, items, 12) == p2 + sql_lit_spec(r.task_id@) + ", "@ + sql_lit_spec(r.idempotency_key@) + ", "@ + sql_lit_spec(r.project_id@) + ", "@ + sql_lit_spec(r.target_backend@) + ", "@ + sql_lit_spec(r.target_instance@) + ", "@ + sql_lit_spec(r.projection_kind@) + ", "@ + sql_lit_spec(r.resource_name@) + ", "@ + sql_lit_spec(r.operation@) + ", "@ + sql_lit_spec(r.source_row_key@) + ", "@ + sql_lit_spec(r.target_options@) + ", "@ + sql_lit_spec(r.source_payload@) + ", "@ + sql_lit_spec(r.source_checksum@));
    assert(join_upto(p2, items, 13) == p2 + sql_lit_spec(r.task_id@) + ", "@ + sql_lit_spec(r.idempotency_key@) + ", "@ + sql_lit_spec(r.project_id@) + ", "@ + sql_lit_spec(r.target_backend@) + ", "@ + sql_lit_spec(r.target_instance@) + ", "@ + sql_lit_spec(r.projection_kind@) + ", "@ + sql_lit_spec(r.resource_name@) + ", "@ + sql_lit_spec(r.operation@) + ", "@ + sql_lit_spec(r.source_row_key@) + ", "@ + sql_lit_spec(r.target_options@) + ", "@ + sql_lit_spec(r.source_payload@) + ", "@ + sql_lit_spec(r.source_checksum@) + ", "@ + sql_lit_spec(projection_status_text(r.status)));
    assert(join_upto(p2, items, 14) == p2 + sql_lit_spec(r.task_id@) + ", "@ + sql_lit_spec(r.idempotency_key@) + ", "@ + sql_lit_spec(r.project_id@) + ", "@ + sql_lit_spec(r.target_backend@) + ", "@ + sql_lit_spec(r.target_instance@) + ", "@ + sql_lit_spec(r.projection_kind@) + ", "@ + sql_lit_spec(r.resource_name@) + ", "@ + sql_lit_spec(r.operation@) + ", "@ + sql_lit_spec(r.source_row_key@) + ", "@ + sql_lit_spec(r.target_options@) + ", "@ + sql_lit_spec(r.source_payload@) + ", "@ + sql_lit_spec(r.source_checksum@) + ", "@ + sql_lit_spec(projection_status_text(r.status)) + ", "@ + int_decimal(r.retry_count as int));
    assert(join_upto(p2, items, 15) == p2 + sql_lit_spec(r.task_id@) + ", "@ + sql_lit_spec(r.idempotency_key@) + ", "@ + sql_lit_spec(r.project_id@) + ", "@ + sql_lit_spec(r.target_backend@) + ", "@ + sql_lit_spec(r.target_instance@) + ", "@ + sql_lit_spec(r.projection_kind@) + ", "@ + sql_lit_spec(r.resource_name@) + ", "@ + sql_lit_spec(r.operation@) + ", "@ + sql_lit_spec(r.source_row_key@) + ", "@ + sql_lit_spec(r.target_options@) + ", "@ + sql_lit_spec(r.source_payload@) + ", "@ + sql_lit_spec(r.source_checksum@) + ", "@ + sql_lit_spec(projection_status_text(r.status)) + ", "@ + int_decimal(r.retry_count as int) + ", "@ + sql_lit_spec(r.last_error@));
    assert(join_upto(p2, items, 16) == p2 + sql_lit_spec(r.task_id@) + ", "@ + sql_lit_spec(r.idempotency_key@) + ", "@ + sql_lit_spec(r.project_id@) + ", "@ + sql_lit_spec(r.target_backend@) + ", "@ + sql_lit_spec(r.target_instance@) + ", "@ + sql_lit_spec(r.projection_kind@) + ", "@ + sql_lit_spec(r.resource_name@) + ", "@ + sql_lit_spec(r.operation@) + ", "@ + sql_lit_spec(r.source_row_key@) + ", "@ + sql_lit_spec(r.target_options@) + ", "@ + sql_lit_spec(r.source_payload@) + ", "@ + sql_lit_spec(r.source_checksum@) + ", "@ + sql_lit_spec(projection_status_text(r.status)) + ", "@ + int_decimal(r.retry_count as int) + ", "@ + sql_lit_spec(r.last_error@) + ", "@ + int_decimal(r.created_at_ms as int));
    assert(join_upto(p2, items, 17) == p2 + sql_lit_spec(r.task_id@) + ", "@ + sql_lit_spec(r.idempotency_key@) + ", "@ + sql_lit_spec(r.project_id@) + ", "@ + sql_lit_spec(r.target_backend@) + ", "@ + sql_lit_spec(r.target_instance@) + ", "@ + sql_lit_spec(r.projection_kind@) + ", "@ + sql_lit_spec(r.resource_name@) + ", "@ + sql_lit_spec(r.operation@) + ", "@ + sql_lit_spec(r.source_row_key@) + ", "@ + sql_lit_spec(r.target_options@) + ", "@ + sql_lit_spec(r.source_payload@) + ", "@ + sql_lit_spec(r.source_checksum@) + ", "@ + sql_lit_spec(projection_status_text(r.status)) + ", "@ + int_decimal(r.retry_count as int) + ", "@ + sql_lit_spec(r.last_error@) + ", "@ + int_decimal(r.created_at_ms as int) + ", "@ + int_decimal(r.updated_at_ms as int));
    assert(join_upto(p2, items, 18) == p2 + sql_lit_spec(r.task_id@) + ", "@ + sql_lit_spec(r.idempotency_key@) + ", "@ + sql_lit_spec(r.project_id@) + ", "@ + sql_lit_spec(r.target_backend@) + ", "@ + sql_lit_spec(r.target_instance@) + ", "@ + sql_lit_spec(r.projection_kind@) + ", "@ + sql_lit_spec(r.resource_name@) + ", "@ + sql_lit_spec(r.operation@) + ", "@ + sql_lit_spec(r.source_row_key@) + ", "@ + sql_lit_spec(r.target_options@) + ", "@ + sql_lit_spec(r.source_payload@) + ", "@ + sql_lit_spec(r.source_checksum@) + ", "@ + sql_lit_spec(projection_status_text(r.status)) + ", "@ + int_decimal(r.retry_count as int) + ", "@ + sql_lit_spec(r.last_error@) + ", "@ + int_decimal(r.created_at_ms as int) + ", "@ + int_decimal(r.updated_at_ms as int) + ", "@ + int_decimal(opt_millis_spec(r.next_retry_at_ms) as int));
    assert(join_upto(p2, items, 19) == p2 + sql_lit_spec(r.task_id@) + ", "@ + sql_lit_spec(r.idempotency_key@) + ", "@ + sql_lit_spec(r.project_id@) + ", "@ + sql_lit_spec(r.target_backend@) + ", "@ + sql_lit_spec(r.target_instance@) + ", "@ + sql_lit_spec(r.projection_kind@) + ", "@ + sql_lit_spec(r.resource_name@) + ", "@ + sql_lit_spec(r.operation@) + ", "@ + sql_lit_spec(r.source_row_key@) + ", "@ + sql_lit_spec(r.target_options@) + ", "@ + sql_lit_spec(r.source_payload@) + ", "@ + sql_lit_spec(r.source_checksum@) + ", "@ + sql_lit_spec(projection_status_text(r.status)) + ", "@ + int_decimal(r.retry_count as int) + ", "@ + sql_lit_spec(r.last_error@) + ", "@ + int_decimal(r.created_at_ms as int) + ", "@ + int_decimal(r.updated_at_ms as int) + ", "@ + int_decimal(opt_millis_spec(r.next_retry_at_ms) as int) + ", "@ + int_decimal(opt_millis_spec(r.completed_at_ms) as int));
    assert(join_upto(p2, items, 20) == p2 + sql_lit_spec(r.task_id@) + ", "@ + sql_lit_spec(r.idempotency_key@) + ", "@ + sql_lit_spec(r.project_id@) + ", "@ + sql_lit_spec(r.target_backend@) + ", "@ + sql_lit_spec(r.target_instance@) + ", "@ + sql_lit_spec(r.projection_kind@) + ", "@ + sql_lit_spec(r.resource_name@) + ", "@ + sql_lit_spec(r.operation@) + ", "@ + sql_lit_spec(r.source_row_key@) + ", "@ + sql_lit_spec(r.target_options@) + ", "@ + sql_lit_spec(r.source_payload@) + ", "@ + sql_lit_spec(r.source_checksum@) + ", "@ + sql_lit_spec(projection_status_text(r.status)) + ", "@ + int_decimal(r.retry_count as int) + ", "@ + sql_lit_spec(r.last_error@) + ", "@ + int_decimal(r.created_at_ms as int) + ", "@ + int_decimal(r.updated_at_ms as int) + ", "@ + int_decimal(opt_millis_spec(r.next_retry_at_ms) as int) + ", "@ + int_decimal(opt_millis_spec(r.completed_at_ms) as int) + ", "@ + sql_lit_spec(r.manifest_checksum@));
    assert(join_upto(p2, items, 21) == p2 + sql_lit_spec(r.task_id@) + ", "@ + sql_lit_spec(r.idempotency_key@) + ", "@ + sql_lit_spec(r.project_id@) + ", "@ + sql_lit_spec(r.target_backend@) + ", "@ + sql_lit_spec(r.target_instance@) + ", "@ + sql_lit_spec(r.projection_kind@) + ", "@ + sql_lit_spec(r.resource_name@) + ", "@ + sql_lit_spec(r.operation@) + ", "@ + sql_lit_spec(r.source_row_key@) + ", "@ + sql_lit_spec(r.target_options@) + ", "@ + sql_lit_spec(r.source_payload@) + ", "@ + sql_lit_spec(r.source_checksum@) + ", "@ + sql_lit_spec(projection_status_text(r.status)) + ", "@ + int_decimal(r.retry_count as int) + ", "@ + sql_lit_spec(r.last_error@) + ", "@ + int_decimal(r.created_at_ms as int) + ", "@ + int_decimal(r.updated_at_ms as int) + ", "@ + int_decimal(opt_millis_spec(r.next_retry_at_ms) as int) + ", "@ + int_decimal(opt_millis_spec(r.completed_at_ms) as int) + ", "@ + sql_lit_spec(r.manifest_checksum@) + ", "@ + sql_lit_spec(r.message_type@));
    assert(join_upto(p2, items, 22) == p2 + sql_lit_spec(r.task_id@) + ", "@ + sql_lit_spec(r.idempotency_key@) + ", "@ + sql_lit_spec(r.project_id@) + ", "@ + sql_lit_spec(r.target_backend@) + ", "@ + sql_lit_spec(r.target_instance@) + ", "@ + sql_lit_spec(r.projection_kind@) + ", "@ + sql_lit_spec(r.resource_name@) + ", "@ + sql_lit_spec(r.operation@) + ", "@ + sql_lit_spec(r.source_row_key@) + ", "@ + sql_lit_spec(r.target_options@) + ", "@ + sql_lit_spec(r.source_payload@) + ", "@ + sql_lit_spec(r.source_checksum@) + ", "@ + sql_lit_spec(projection_status_text(r.status)) + ", "@ + int_decimal(r.retry_count as int) + ", "@ + sql_lit_spec(r.last_error@) + ", "@ + int_decimal(r.created_at_ms as int) + ", "@ + int_decimal(r.updated_at_ms as int) + ", "@ + int_decimal(opt_millis_spec(r.next_retry_at_ms) as int) + ", "@ + int_decimal(opt_millis_spec(r.completed_at_ms) as int) + ", "@ + sql_lit_spec(r.manifest_checksum@) + ", "@ + sql_lit_spec(r.message_type@) + ", "@ + sql_lit_spec(r.source_schema@));
    assert(join_upto(p2, items, 23) == p2 + sql_lit_spec(r.task_id@) + ", "@ + sql_lit_spec(r.idempotency_key@) + ", "@ + sql_lit_spec(r.project_id@) + ", "@ + sql_lit_spec(r.target_backend@) + ", "@ + sql_lit_spec(r.target_instance@) + ", "@ + sql_lit_spec(r.projection_kind@) + ", "@ + sql_lit_spec(r.resource_name@) + ", "@ + sql_lit_spec(r.operation@) + ", "@ + sql_lit_spec(r.source_row_key@) + ", "@ + sql_lit_spec(r.target_options@) + ", "@ + sql_lit_spec(r.source_payload@) + ", "@ + sql_lit_spec(r.source_checksum@) + ", "@ + sql_lit_spec(projection_status_text(r.status)) + ", "@ + int_decimal(r.retry_count as int) + ", "@ + sql_lit_spec(r.last_error@) + ", "@ + int_decimal(r.created_at_ms as int) + ", "@ + int_decimal(r.updated_at_ms as int) + ", "@ + int_decimal(opt_millis_spec(r.next_retry_at_ms) as int) + ", "@ + int_decimal(opt_millis_spec(r.completed_at_ms) as int) + ", "@ + sql_lit_spec(r.manifest_checksum@) + ", "@ + sql_lit_spec(r.message_type@) + ", "@ + sql_lit_spec(r.source_schema@) + ", "@ + sql_lit_spec(r.source_table@));
    assert(join_upto(p2, items, 24) == p2 + sql_lit_spec(r.task_id@) + ", "@ + sql_lit_spec(r.idempotency_key@) + ", "@ + sql_lit_spec(r.project_id@) + ", "@ + sql_lit_spec(r.target_backend@) + ", "@ + sql_lit_spec(r.target_instance@) + ", "@ + sql_lit_spec(r.projection_kind@) + ", "@ + sql_lit_spec(r.resource_name@) + ", "@ + sql_lit_spec(r.operation@) + ", "@ + sql_lit_spec(r.source_row_key@) + ", "@ + sql_lit_spec(r.target_options@) + ", "@ + sql_lit_spec(r.source_payload@) + ", "@ + sql_lit_spec(r.source_checksum@) + ", "@ + sql_lit_spec(projection_status_text(r.status)) + ", "@ + int_decimal(r.retry_count as int) + ", "@ + sql_lit_spec(r.last_error@) + ", "@ + int_decimal(r.created_at_ms as int) + ", "@ + int_decimal(r.updated_at_ms as int) + ", "@ + int_decimal(opt_millis_spec(r.next_retry_at_ms) as int) + ", "@ + int_decimal(opt_millis_spec(r.completed_at_ms) as int) + ", "@ + sql_lit_spec(r.manifest_checksum@) + ", "@ + sql_lit_spec(r.message_type@) + ", "@ + sql_lit_spec(r.source_schema@) + ", "@ + sql_lit_spec(r.source_table@) + ", "@ + nat_decimal(version as nat));
}

} // verus!
