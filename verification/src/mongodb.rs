//! MongoDB canonical store: the backend identity, the durability token of
//! the counter document and the classification of driver error texts.
use vstd::prelude::*;

use crate::status::{SystemStoreError, io_error};
use crate::text::{contains, int_decimal};
use crate::token::{DurabilityToken, seq_durability_token, seq_wait_target, seq_wait_target_of};

verus! {

/// MongoDB-backed canonical store: the instance name and the outbox
/// collection. The driver's database handle is held by the application
/// layer.
pub struct MongoDbCanonicalStore {
    pub instance_name: String,
    pub outbox_collection: String,
}

impl MongoDbCanonicalStore {
    pub fn new(instance_name: &str, outbox_collection: &str) -> (s: Self)
        ensures
            s.instance_name@ == instance_name@,
            s.outbox_collection@ == outbox_collection@,
    {
        MongoDbCanonicalStore {
            instance_name: String::from_str(instance_name),
            outbox_collection: String::from_str(outbox_collection),
        }
    }

    pub fn backend_label(&self) -> (r: &'static str)
        ensures
            r@ == "mongodb"@,
    {
        "mongodb"
    }

    pub fn instance_name(&self) -> (r: &str)
        ensures
            r@ == self.instance_name@,
    {
        self.instance_name.as_str()
    }

    /// Durability token for the outbox counter.
    pub fn durability_token(&self, seq: i64) -> (t: DurabilityToken)
        ensures
            t.backend_label@ == "mongodb"@,
            t.value@ == int_decimal(seq as int),
    {
        seq_durability_token("mongodb", seq)
    }

    /// The validation half of `wait_for_token`: the target sequence of a
    /// MongoDB token.
    pub fn wait_target(&self, token: &DurabilityToken) -> (r: Result<i64, String>)
        ensures
            r is Ok <==> seq_wait_target("mongodb"@, token.backend_label@, token.value@) is Some,
            r matches Ok(v) ==> seq_wait_target("mongodb"@, token.backend_label@, token.value@)
                == Some(v),
            !crate::text::eq_ignore_ascii_case_spec(token.backend_label@, "mongodb"@) ==> (
            r matches Err(m) && m@ == crate::token::foreign_token_message(
                "MongoDbCanonicalStore"@,
                token.backend_label@,
            )),
            crate::text::eq_ignore_ascii_case_spec(token.backend_label@, "mongodb"@)
                && crate::text::parse_i64_spec(token.value@) is None ==> (r matches Err(m) && m@
                == crate::token::malformed_token_head("mongodb"@, token.value@)),
    {
        seq_wait_target_of("MongoDbCanonicalStore", "mongodb", token, false)
    }

    /// Whether a `createCollection` error only says the namespace exists.
    pub fn is_namespace_exists(err_text: &str) -> (r: bool)
        ensures
            r == (crate::text::contains_spec(err_text@, "NamespaceExists"@)
                || crate::text::contains_spec(err_text@, "already exists"@)),
    {
        contains(err_text, "NamespaceExists") || contains(err_text, "already exists")
    }

    /// Whether a write error is a duplicate-key (E11000) error.
    pub fn is_duplicate_key(err_text: &str) -> (r: bool)
        ensures
            r == (crate::text::contains_spec(err_text@, "E11000"@) || crate::text::contains_spec(
                err_text@,
                "duplicate key"@,
            )),
    {
        contains(err_text, "E11000") || contains(err_text, "duplicate key")
    }
}

/// Map a driver error to a typed `SystemStoreError::Io` for the `"mongodb"`
/// backend; `op` names the failed operation.
pub fn mongo_err(op: &str, err: &str) -> (e: SystemStoreError)
    ensures
        e matches SystemStoreError::Io { backend: b, source } && b@ == "mongodb"@ && source@
            == op@ + ": "@ + err@,
{
    io_error("mongodb", op, err)
}

} // verus!
