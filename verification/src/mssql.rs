//! SQL Server canonical store: relation names (with the per-table overrides
//! of the system stores), their injection guards and the durability token.
use vstd::prelude::*;

use crate::ident::{is_mssql_relation, is_safe_mssql_relation};
use crate::text::{int_decimal, parse_i64, parse_i64_spec};
use crate::token::{DurabilityToken, seq_durability_token, seq_wait_target, seq_wait_target_of};

verus! {

/// The SQL Server client a store runs its T-SQL through, named by its
/// connection string; the TDS round trips are made by the application layer.
#[derive(Debug, Clone)]
pub struct MssqlClient {
    pub connection_string: String,
}

impl MssqlClient {
    pub fn new(connection_string: &str) -> (c: Self)
        ensures
            c.connection_string@ == connection_string@,
    {
        MssqlClient { connection_string: String::from_str(connection_string) }
    }
}

/// SQL Server-backed canonical store.
pub struct MssqlCanonicalStore {
    pub client: MssqlClient,
    pub instance_name: String,
    /// Outbox relation; checked by [`MssqlCanonicalStore::safe_relation`].
    pub outbox_relation: String,
    /// Per-table overrides of the system-store relations; `None` selects the
    /// canonical default name.
    pub projection_relation: Option<String>,
    pub saga_relation: Option<String>,
    pub admin_audit_relation: Option<String>,
    pub migration_runs_relation: Option<String>,
    pub migration_ledger_relation: Option<String>,
}

/// The override's text, or the default when there is none.
pub open spec fn relation_or(r: Option<String>, default: Seq<char>) -> Seq<char> {
    match r {
        Some(s) => s@,
        None => default,
    }
}

impl MssqlCanonicalStore {
    pub fn new(client: MssqlClient, instance_name: &str, outbox_relation: &str) -> (s: Self)
        ensures
            s.client == client,
            s.instance_name@ == instance_name@,
            s.outbox_relation@ == outbox_relation@,
            s.projection_relation is None,
            s.saga_relation is None,
            s.admin_audit_relation is None,
            s.migration_runs_relation is None,
            s.migration_ledger_relation is None,
    {
        MssqlCanonicalStore {
            client,
            instance_name: String::from_str(instance_name),
            outbox_relation: String::from_str(outbox_relation),
            projection_relation: None,
            saga_relation: None,
            admin_audit_relation: None,
            migration_runs_relation: None,
            migration_ledger_relation: None,
        }
    }

    pub fn backend_label(&self) -> (r: &'static str)
        ensures
            r@ == "mssql"@,
    {
        "mssql"
    }

    pub fn instance_name(&self) -> (r: &str)
        ensures
            r@ == self.instance_name@,
    {
        self.instance_name.as_str()
    }

    pub fn client(&self) -> (r: &MssqlClient)
        ensures
            *r == self.client,
    {
        &self.client
    }

    /// Check an interpolated relation name: non-empty and made only of ASCII
    /// letters, digits, `_`, `.` and bracket quoting.
    pub fn safe_object_name(name: &str) -> (r: Result<&str, String>)
        ensures
            r is Ok <==> is_safe_mssql_relation(name@),
            r matches Ok(n) ==> n@ == name@,
            r matches Err(m) ==> m@ == "unsafe relation name '"@ + name@ + "'"@,
    {
        if !is_mssql_relation(name) {
            return Err(String::from_str("unsafe relation name '").concat(name).concat("'"));
        }
        Ok(name)
    }

    /// Check the outbox relation with the same character rule.
    pub fn safe_relation(&self) -> (r: Result<&str, String>)
        ensures
            r is Ok <==> is_safe_mssql_relation(self.outbox_relation@),
            r matches Ok(n) ==> n@ == self.outbox_relation@,
            r matches Err(m) ==> m@ == "unsafe outbox_relation '"@ + self.outbox_relation@ + "'"@,
    {
        let rel = self.outbox_relation.as_str();
        if !is_mssql_relation(rel) {
            return Err(String::from_str("unsafe outbox_relation '").concat(rel).concat("'"));
        }
        Ok(rel)
    }

    /// Override the admin-audit relation (default `udb_admin_audit_log`).
    pub fn with_admin_audit_relation(self, relation: &str) -> (s: Self)
        ensures
            s == (MssqlCanonicalStore { admin_audit_relation: s.admin_audit_relation, ..self }),
            s.admin_audit_relation matches Some(r) && r@ == relation@,
    {
        MssqlCanonicalStore { admin_audit_relation: Some(String::from_str(relation)), ..self }
    }

    pub fn admin_audit_relation_ref(&self) -> (r: &str)
        ensures
            r@ == relation_or(self.admin_audit_relation, "udb_admin_audit_log"@),
    {
        match &self.admin_audit_relation {
            Some(r) => r.as_str(),
            None => "udb_admin_audit_log",
        }
    }

    /// Override the migration relations (defaults `udb_migration_runs` and
    /// `udb_migration_op_ledger`).
    pub fn with_migration_relations(self, runs: &str, ledger: &str) -> (s: Self)
        ensures
            s == (MssqlCanonicalStore {
                migration_runs_relation: s.migration_runs_relation,
                migration_ledger_relation: s.migration_ledger_relation,
                ..self
            }),
            s.migration_runs_relation matches Some(r) && r@ == runs@,
            s.migration_ledger_relation matches Some(l) && l@ == ledger@,
    {
        MssqlCanonicalStore {
            migration_runs_relation: Some(String::from_str(runs)),
            migration_ledger_relation: Some(String::from_str(ledger)),
            ..self
        }
    }

    pub fn migration_runs_rel(&self) -> (r: &str)
        ensures
            r@ == relation_or(self.migration_runs_relation, "udb_migration_runs"@),
    {
        match &self.migration_runs_relation {
            Some(r) => r.as_str(),
            None => "udb_migration_runs",
        }
    }

    pub fn migration_ledger_rel(&self) -> (r: &str)
        ensures
            r@ == relation_or(self.migration_ledger_relation, "udb_migration_op_ledger"@),
    {
        match &self.migration_ledger_relation {
            Some(r) => r.as_str(),
            None => "udb_migration_op_ledger",
        }
    }

    /// Override the projection-task relation (default `udb_projection_tasks`).
    pub fn with_projection_relation(self, relation: &str) -> (s: Self)
        ensures
            s == (MssqlCanonicalStore { projection_relation: s.projection_relation, ..self }),
            s.projection_relation matches Some(r) && r@ == relation@,
    {
        MssqlCanonicalStore { projection_relation: Some(String::from_str(relation)), ..self }
    }

    pub fn projection_relation_ref(&self) -> (r: &str)
        ensures
            r@ == relation_or(self.projection_relation, "udb_projection_tasks"@),
    {
        match &self.projection_relation {
            Some(r) => r.as_str(),
            None => "udb_projection_tasks",
        }
    }

    /// Override the saga relation (default `udb_sagas`).
    pub fn with_saga_relation(self, relation: &str) -> (s: Self)
        ensures
            s == (MssqlCanonicalStore { saga_relation: s.saga_relation, ..self }),
            s.saga_relation matches Some(r) && r@ == relation@,
    {
        MssqlCanonicalStore { saga_relation: Some(String::from_str(relation)), ..self }
    }

    pub fn saga_relation_ref(&self) -> (r: &str)
        ensures
            r@ == relation_or(self.saga_relation, "udb_sagas"@),
    {
        match &self.saga_relation {
            Some(r) => r.as_str(),
            None => "udb_sagas",
        }
    }

    /// Durability token for the outbox high-water mark.
    pub fn durability_token(&self, seq: i64) -> (t: DurabilityToken)
        ensures
            t.backend_label@ == "mssql"@,
            t.value@ == int_decimal(seq as int),
    {
        seq_durability_token("mssql", seq)
    }

    /// The validation half of `wait_for_token`: the target sequence of a
    /// SQL Server token.
    pub fn wait_target(&self, token: &DurabilityToken) -> (r: Result<i64, String>)
        ensures
            r is Ok <==> seq_wait_target("mssql"@, token.backend_label@, token.value@) is Some,
            r matches Ok(v) ==> seq_wait_target("mssql"@, token.backend_label@, token.value@)
                == Some(v),
            !crate::text::eq_ignore_ascii_case_spec(token.backend_label@, "mssql"@) ==> (
            r matches Err(m) && m@ == crate::token::foreign_token_message(
                "MssqlCanonicalStore"@,
                token.backend_label@,
            )),
            crate::text::eq_ignore_ascii_case_spec(token.backend_label@, "mssql"@)
                && crate::text::parse_i64_spec(token.value@) is None ==> (r matches Err(m)
                && m@.len() >= crate::token::malformed_token_head("mssql"@, token.value@).len()
                && m@.subrange(0, crate::token::malformed_token_head("mssql"@, token.value@).len() as int)
                == crate::token::malformed_token_head("mssql"@, token.value@)),
    {
        seq_wait_target_of("MssqlCanonicalStore", "mssql", token, true)
    }

    /// The sequence of the store's own current token, read back while
    /// polling.
    pub fn current_seq_of(current: &DurabilityToken) -> (r: Result<i64, String>)
        ensures
            r is Ok <==> parse_i64_spec(current.value@) is Some,
            r matches Ok(v) ==> parse_i64_spec(current.value@) == Some(v),
            r matches Err(m) ==> m@.len() >= ("malformed current mssql token '"@ + current.value@
                + "'"@).len() && m@.subrange(
                0,
                ("malformed current mssql token '"@ + current.value@ + "'"@).len() as int,
            ) == "malformed current mssql token '"@ + current.value@ + "'"@,
    {
        match parse_i64(current.value.as_str()) {
            Ok(v) => Ok(v),
            Err(detail) => {
                let head = String::from_str("malformed current mssql token '").concat(
                    current.value.as_str(),
                ).concat("'");
                let ghost h = head@;
                let m = head.concat(": ").concat(detail.as_str());
                assert(m@.subrange(0, h.len() as int) =~= h);
                Err(m)
            },
        }
    }
}

} // verus!
