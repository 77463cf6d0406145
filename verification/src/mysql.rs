//! MySQL canonical store: the outbox relation guard and the backend
//! identity; the token forms live in [`crate::mysql_token`].
use vstd::prelude::*;

use crate::ident::{is_mysql_relation, is_safe_mysql_relation};

verus! {

/// MySQL-backed canonical store: the instance name and the outbox relation.
/// The connection pool is held by the application layer.
pub struct MysqlCanonicalStore {
    pub instance_name: String,
    /// Outbox relation; checked by [`MysqlCanonicalStore::safe_relation`].
    pub outbox_relation: String,
}

impl MysqlCanonicalStore {
    pub fn new(instance_name: &str, outbox_relation: &str) -> (s: Self)
        ensures
            s.instance_name@ == instance_name@,
            s.outbox_relation@ == outbox_relation@,
    {
        MysqlCanonicalStore {
            instance_name: String::from_str(instance_name),
            outbox_relation: String::from_str(outbox_relation),
        }
    }

    pub fn backend_label(&self) -> (r: &'static str)
        ensures
            r@ == "mysql"@,
    {
        "mysql"
    }

    pub fn instance_name(&self) -> (r: &str)
        ensures
            r@ == self.instance_name@,
    {
        self.instance_name.as_str()
    }

    /// The outbox relation, checked to hold only ASCII letters, digits, `_`,
    /// `.` and backtick quoting.
    pub fn safe_relation(&self) -> (r: Result<String, String>)
        ensures
            r is Ok <==> is_safe_mysql_relation(self.outbox_relation@),
            r matches Ok(n) ==> n@ == self.outbox_relation@,
            r matches Err(m) ==> m@ == "unsafe outbox_relation '"@ + self.outbox_relation@ + "'"@,
    {
        let rel = self.outbox_relation.as_str();
        if !is_mysql_relation(rel) {
            return Err(String::from_str("unsafe outbox_relation '").concat(rel).concat("'"));
        }
        Ok(String::from_str(rel))
    }
}

} // verus!
