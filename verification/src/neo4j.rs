//! Neo4j canonical store: the run tag that scopes every node it touches,
//! the durability token of the counter node and the error mapping.
use vstd::prelude::*;

use crate::clock;
use crate::status::{SystemStoreError, io_error};
use crate::text::int_decimal;
use crate::token::{DurabilityToken, seq_durability_token, seq_wait_target, seq_wait_target_of};

verus! {

/// Connection settings of the Neo4j HTTP transactional-Cypher executor.
#[derive(Debug, Clone)]
pub struct Neo4jConfig {
    pub http_base: String,
    pub username: String,
    pub password: String,
    pub database: String,
    pub is_cloud: bool,
    pub dev_mode: bool,
    pub timeout_secs: u64,
}

/// The Neo4j executor a store runs its Cypher through; the HTTP round trips
/// are made by the application layer with these settings.
#[derive(Debug, Clone)]
pub struct Neo4jExecutor {
    pub config: Neo4jConfig,
}

impl Neo4jExecutor {
    pub fn new(config: Neo4jConfig) -> (e: Self)
        ensures
            e.config == config,
    {
        Neo4jExecutor { config }
    }
}

/// Neo4j-backed canonical store.
pub struct Neo4jCanonicalStore {
    pub executor: Neo4jExecutor,
    pub instance_name: String,
    /// Tag stamped onto every node and matched by every MATCH/MERGE; empty in
    /// production.
    pub run_tag: String,
}

impl Neo4jCanonicalStore {
    pub fn new(executor: Neo4jExecutor, instance_name: &str) -> (s: Self)
        ensures
            s.executor == executor,
            s.instance_name@ == instance_name@,
            s.run_tag@ == Seq::<char>::empty(),
    {
        Neo4jCanonicalStore {
            executor,
            instance_name: String::from_str(instance_name),
            run_tag: String::new(),
        }
    }

    /// Scope every node this store touches with `run_tag`, so two runs
    /// against one database never see each other's nodes.
    pub fn with_run_tag(self, run_tag: &str) -> (s: Self)
        ensures
            s.executor == self.executor,
            s.instance_name == self.instance_name,
            s.run_tag@ == run_tag@,
    {
        Neo4jCanonicalStore { run_tag: String::from_str(run_tag), ..self }
    }

    pub fn backend_label(&self) -> (r: &'static str)
        ensures
            r@ == "neo4j"@,
    {
        "neo4j"
    }

    pub fn instance_name(&self) -> (r: &str)
        ensures
            r@ == self.instance_name@,
    {
        self.instance_name.as_str()
    }

    pub fn executor(&self) -> (r: &Neo4jExecutor)
        ensures
            *r == self.executor,
    {
        &self.executor
    }

    pub fn run_tag(&self) -> (r: &str)
        ensures
            r@ == self.run_tag@,
    {
        self.run_tag.as_str()
    }

    /// Unix milliseconds now, for lease expiries.
    pub fn now_unix_ms() -> i64 {
        clock::now_unix_ms()
    }

    /// Durability token for the counter node's sequence.
    pub fn durability_token(&self, seq: i64) -> (t: DurabilityToken)
        ensures
            t.backend_label@ == "neo4j"@,
            t.value@ == int_decimal(seq as int),
    {
        seq_durability_token("neo4j", seq)
    }

    /// The validation half of `wait_for_token`: the target sequence of a
    /// Neo4j token.
    pub fn wait_target(&self, token: &DurabilityToken) -> (r: Result<i64, String>)
        ensures
            r is Ok <==> seq_wait_target("neo4j"@, token.backend_label@, token.value@) is Some,
            r matches Ok(v) ==> seq_wait_target("neo4j"@, token.backend_label@, token.value@)
                == Some(v),
            !crate::text::eq_ignore_ascii_case_spec(token.backend_label@, "neo4j"@) ==> (
            r matches Err(m) && m@ == crate::token::foreign_token_message(
                "Neo4jCanonicalStore"@,
                token.backend_label@,
            )),
            crate::text::eq_ignore_ascii_case_spec(token.backend_label@, "neo4j"@)
                && crate::text::parse_i64_spec(token.value@) is None ==> (r matches Err(m)
                && m@.len() >= crate::token::malformed_token_head("neo4j"@, token.value@).len()
                && m@.subrange(0, crate::token::malformed_token_head("neo4j"@, token.value@).len() as int)
                == crate::token::malformed_token_head("neo4j"@, token.value@)),
    {
        seq_wait_target_of("Neo4jCanonicalStore", "neo4j", token, true)
    }
}

/// Unix milliseconds now, for the system-store timestamp properties.
pub fn now_unix_ms() -> i64 {
    clock::now_unix_ms()
}

/// Map an executor error to a typed `SystemStoreError::Io` for the
/// `"neo4j"` backend; `op` names the failed operation.
pub fn neo_err(op: &str, err: &str) -> (e: SystemStoreError)
    ensures
        e matches SystemStoreError::Io { backend: b, source } && b@ == "neo4j"@ && source@ == op@
            + ": "@ + err@,
{
    io_error("neo4j", op, err)
}

} // verus!
