//! Cassandra / ScyllaDB canonical store: the keyspace and table naming, the
//! identifier guards, the durability token and the error mapping of the
//! CQL-backed store.
use vstd::prelude::*;

use crate::clock;
use crate::ident::{is_safe_ident, safe_ident};
use crate::status::{SystemStoreError, io_error};
use crate::text::int_decimal;
use crate::token::{DurabilityToken, seq_durability_token, seq_wait_target, seq_wait_target_of};

verus! {

/// Cassandra-backed canonical store: the instance name, the keyspace that
/// hosts the system tables and the outbox table name. The CQL session is
/// held by the application layer.
pub struct CassandraCanonicalStore {
    pub instance_name: String,
    /// Keyspace that hosts the system tables; checked by [`safe_ident`].
    pub keyspace: String,
    /// Unqualified outbox table name; checked by [`safe_ident`].
    pub outbox_table: String,
}

/// `"ks"."table"`.
pub open spec fn cql_qualified(keyspace: Seq<char>, table: Seq<char>) -> Seq<char> {
    "\""@ + keyspace + "\".\""@ + table + "\""@
}

impl CassandraCanonicalStore {
    pub fn new(instance_name: &str, keyspace: &str, outbox_table: &str) -> (s: Self)
        ensures
            s.instance_name@ == instance_name@,
            s.keyspace@ == keyspace@,
            s.outbox_table@ == outbox_table@,
    {
        CassandraCanonicalStore {
            instance_name: String::from_str(instance_name),
            keyspace: String::from_str(keyspace),
            outbox_table: String::from_str(outbox_table),
        }
    }

    pub fn backend_label(&self) -> (r: &'static str)
        ensures
            r@ == "cassandra"@,
    {
        "cassandra"
    }

    pub fn instance_name(&self) -> (r: &str)
        ensures
            r@ == self.instance_name@,
    {
        self.instance_name.as_str()
    }

    /// The keyspace, once it is checked to be a bare CQL identifier.
    pub fn keyspace_ident(&self) -> (r: Result<&str, String>)
        ensures
            r is Ok <==> is_safe_ident(self.keyspace@),
            r matches Ok(k) ==> k@ == self.keyspace@,
            r matches Err(m) ==> m@ == "unsafe cassandra identifier '"@ + self.keyspace@ + "'"@,
    {
        match safe_ident(self.keyspace.as_str()) {
            Ok(()) => Ok(self.keyspace.as_str()),
            Err(m) => Err(m),
        }
    }

    /// The outbox table name, once it is checked to be a bare CQL identifier.
    pub fn outbox_ident(&self) -> (r: Result<&str, String>)
        ensures
            r is Ok <==> is_safe_ident(self.outbox_table@),
            r matches Ok(t) ==> t@ == self.outbox_table@,
            r matches Err(m) ==> m@ == "unsafe cassandra identifier '"@ + self.outbox_table@
                + "'"@,
    {
        match safe_ident(self.outbox_table.as_str()) {
            Ok(()) => Ok(self.outbox_table.as_str()),
            Err(m) => Err(m),
        }
    }

    /// Fully-qualified, double-quoted `"ks"."table"`.
    pub fn qualified(&self, table: &str) -> (r: String)
        ensures
            r@ == cql_qualified(self.keyspace@, table@),
    {
        String::from_str("\"").concat(self.keyspace.as_str()).concat("\".\"").concat(table).concat(
            "\"",
        )
    }

    /// The keyspace this store's system tables live in.
    pub fn keyspace(&self) -> (r: &str)
        ensures
            r@ == self.keyspace@,
    {
        self.keyspace.as_str()
    }

    /// `CREATE KEYSPACE IF NOT EXISTS` for the (checked) keyspace.
    pub fn keyspace_ddl(&self) -> (r: Result<String, String>)
        ensures
            r is Ok <==> is_safe_ident(self.keyspace@),
            r matches Ok(ddl) ==> ddl@ == "CREATE KEYSPACE IF NOT EXISTS "@ + self.keyspace@
                + " WITH replication = {'class':'SimpleStrategy','replication_factor':1}"@,
    {
        let ks = self.keyspace_ident()?;
        Ok(
            String::from_str("CREATE KEYSPACE IF NOT EXISTS ").concat(ks).concat(
                " WITH replication = {'class':'SimpleStrategy','replication_factor':1}",
            ),
        )
    }

    /// `udb_seq` counter table.
    pub fn seq_table(&self) -> (r: String)
        ensures
            r@ == cql_qualified(self.keyspace@, "udb_seq"@),
    {
        self.qualified("udb_seq")
    }

    /// Advisory-lease table.
    pub fn lease_table(&self) -> (r: String)
        ensures
            r@ == cql_qualified(self.keyspace@, "udb_advisory_leases"@),
    {
        self.qualified("udb_advisory_leases")
    }

    /// Admin-audit log table.
    pub fn audit_table(&self) -> (r: String)
        ensures
            r@ == cql_qualified(self.keyspace@, "udb_admin_audit_log"@),
    {
        self.qualified("udb_admin_audit_log")
    }

    /// Admin-audit chain-head table.
    pub fn audit_chain_table(&self) -> (r: String)
        ensures
            r@ == cql_qualified(self.keyspace@, "udb_admin_audit_chain"@),
    {
        self.qualified("udb_admin_audit_chain")
    }

    /// Migration-runs table.
    pub fn runs_table(&self) -> (r: String)
        ensures
            r@ == cql_qualified(self.keyspace@, "udb_migration_runs"@),
    {
        self.qualified("udb_migration_runs")
    }

    /// Migration op-ledger table.
    pub fn ledger_table(&self) -> (r: String)
        ensures
            r@ == cql_qualified(self.keyspace@, "udb_migration_op_ledger"@),
    {
        self.qualified("udb_migration_op_ledger")
    }

    /// Migration op-ledger sequence table.
    pub fn op_seq_table(&self) -> (r: String)
        ensures
            r@ == cql_qualified(self.keyspace@, "udb_migration_op_seq"@),
    {
        self.qualified("udb_migration_op_seq")
    }

    /// Projection-task table.
    pub fn projection_table(&self) -> (r: String)
        ensures
            r@ == cql_qualified(self.keyspace@, "udb_projection_tasks"@),
    {
        self.qualified("udb_projection_tasks")
    }

    /// Projection idempotency-key lookup table.
    pub fn idem_table(&self) -> (r: String)
        ensures
            r@ == cql_qualified(self.keyspace@, "udb_projection_idem"@),
    {
        self.qualified("udb_projection_idem")
    }

    /// Saga table.
    pub fn saga_table(&self) -> (r: String)
        ensures
            r@ == cql_qualified(self.keyspace@, "udb_sagas"@),
    {
        self.qualified("udb_sagas")
    }

    /// Durability token for the current outbox sequence.
    pub fn durability_token(&self, seq: i64) -> (t: DurabilityToken)
        ensures
            t.backend_label@ == "cassandra"@,
            t.value@ == int_decimal(seq as int),
    {
        seq_durability_token("cassandra", seq)
    }

    /// The validation half of `wait_for_token`: the target sequence of a
    /// Cassandra token.
    pub fn wait_target(&self, token: &DurabilityToken) -> (r: Result<i64, String>)
        ensures
            r is Ok <==> seq_wait_target("cassandra"@, token.backend_label@, token.value@) is Some,
            r matches Ok(v) ==> seq_wait_target("cassandra"@, token.backend_label@, token.value@)
                == Some(v),
            !crate::text::eq_ignore_ascii_case_spec(token.backend_label@, "cassandra"@) ==> (
            r matches Err(m) && m@ == crate::token::foreign_token_message(
                "CassandraCanonicalStore"@,
                token.backend_label@,
            )),
            crate::text::eq_ignore_ascii_case_spec(token.backend_label@, "cassandra"@)
                && crate::text::parse_i64_spec(token.value@) is None ==> (r matches Err(m)
                && m@.len() >= crate::token::malformed_token_head("cassandra"@, token.value@).len()
                && m@.subrange(0, crate::token::malformed_token_head("cassandra"@, token.value@).len() as int)
                == crate::token::malformed_token_head("cassandra"@, token.value@)),
    {
        seq_wait_target_of("CassandraCanonicalStore", "cassandra", token, true)
    }
}

/// Unix milliseconds now, for lease expiries and timestamp columns.
pub fn now_unix_ms() -> i64 {
    clock::now_unix_ms()
}

/// Map a CQL client error to a typed `SystemStoreError::Io` for the
/// `"cassandra"` backend; `op` names the failed operation.
pub fn cass_err(op: &str, err: &str) -> (e: SystemStoreError)
    ensures
        e matches SystemStoreError::Io { backend: b, source } && b@ == "cassandra"@ && source@
            == op@ + ": "@ + err@,
{
    io_error("cassandra", op, err)
}

} // verus!
