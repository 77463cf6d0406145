//! Connection-string editing used to point a store at a throwaway database.
use vstd::prelude::*;

use crate::text::{last_index_of, rsplit_once};

verus! {

/// `dsn` with its database segment replaced by `new_db`: everything up to
/// the last `/` is kept; a DSN without `/` gets `/<new_db>` appended.
pub open spec fn swap_database_spec(dsn: Seq<char>, new_db: Seq<char>) -> Seq<char> {
    match last_index_of(dsn, '/') {
        Some(i) => dsn.subrange(0, i) + "/"@ + new_db,
        None => dsn + "/"@ + new_db,
    }
}

/// Swap the database segment of a DSN of the form `scheme://…@host:port/db`.
pub fn swap_database(dsn: &str, new_db: &str) -> (r: String)
    ensures
        r@ == swap_database_spec(dsn@, new_db@),
{
    match rsplit_once(dsn, '/') {
        Some((prefix, _db)) => String::from_str(prefix).concat("/").concat(new_db),
        None => String::from_str(dsn).concat("/").concat(new_db),
    }
}

} // verus!
