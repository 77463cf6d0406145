//! Tolerant cell readers for the rows the HTTP and CQL drivers hand back.
//! ClickHouse's JSONCompact rows are JSON objects keyed by column name, with
//! `Int64` rendered as a JSON number and `UInt64` as a JSON string; CQL rows
//! are positional typed values. Absent or mistyped cells read as the zero
//! value rather than failing.
use vstd::prelude::*;

use crate::text::{parse_i64, parse_i64_spec, parse_u64, parse_u64_spec, str_eq};

verus! {

// ── JSON cells ──────────────────────────────────────────────────────────────

/// A JSON value as the readers see it. Numbers keep the integer they hold;
/// a floating-point number is only marked as such.
#[derive(Debug, Clone)]
pub enum JsonCell {
    Null,
    Bool(bool),
    /// A non-negative integer.
    PosInt(u64),
    /// A negative integer.
    NegInt(i64),
    /// A number with a fraction or exponent.
    Float,
    Str(String),
    Array,
    Object,
}

/// One row: its columns by name.
#[derive(Debug, Clone)]
pub struct JsonRow {
    pub fields: Vec<(String, JsonCell)>,
}

/// The integer a JSON number holds, when it fits an `i64`.
pub open spec fn json_as_i64(c: JsonCell) -> Option<i64> {
    match c {
        JsonCell::PosInt(n) => if n <= i64::MAX {
            Some(n as i64)
        } else {
            None
        },
        JsonCell::NegInt(n) => Some(n),
        _ => None,
    }
}

/// The integer a JSON number holds, when it is non-negative.
pub open spec fn json_as_u64(c: JsonCell) -> Option<u64> {
    match c {
        JsonCell::PosInt(n) => Some(n),
        _ => None,
    }
}

/// The first column named `key`.
pub open spec fn json_get(fields: Seq<(String, JsonCell)>, key: Seq<char>) -> Option<JsonCell>
    decreases fields.len(),
{
    if fields.len() == 0 {
        None
    } else if fields[0].0@ == key {
        Some(fields[0].1)
    } else {
        json_get(fields.skip(1), key)
    }
}

pub open spec fn row_cell(row: Option<JsonRow>, key: Seq<char>) -> Option<JsonCell> {
    match row {
        Some(r) => json_get(r.fields@, key),
        None => None,
    }
}

/// An `Int64` cell: the number, or a string holding one; 0 otherwise.
pub open spec fn cell_i64_spec(cell: Option<JsonCell>) -> i64 {
    match cell {
        Some(c) => match json_as_i64(c) {
            Some(n) => n,
            None => match c {
                JsonCell::Str(s) => match parse_i64_spec(s@) {
                    Some(n) => n,
                    None => 0,
                },
                _ => 0,
            },
        },
        None => 0,
    }
}

/// A `UInt64` cell: a string holding one first, else a non-negative
/// number; 0 otherwise.
pub open spec fn cell_u64_spec(cell: Option<JsonCell>) -> u64 {
    match cell {
        Some(c) => match c {
            JsonCell::Str(s) => match parse_u64_spec(s@) {
                Some(n) => n,
                None => 0,
            },
            _ => match json_as_u64(c) {
                Some(n) => n,
                None => 0,
            },
        },
        None => 0,
    }
}

/// A `String` cell; the empty string otherwise.
pub open spec fn cell_str_spec(cell: Option<JsonCell>) -> Seq<char> {
    match cell {
        Some(JsonCell::Str(s)) => s@,
        _ => Seq::empty(),
    }
}

/// The cell of `row` under `key`.
pub fn json_cell<'a>(row: &'a JsonRow, key: &str) -> (r: Option<&'a JsonCell>)
    ensures
        r == match json_get(row.fields@, key@) {
            Some(c) => Some(&c),
            None => None::<&JsonCell>,
        },
{
    let n = row.fields.len();
    let mut i: usize = 0;
    assert(row.fields@.skip(0) =~= row.fields@);
    while i < n
        invariant
            n == row.fields@.len(),
            i <= n,
            json_get(row.fields@, key@) == json_get(row.fields@.skip(i as int), key@),
        decreases n - i,
    {
        let ghost rest = row.fields@.skip(i as int);
        assert(rest[0] == row.fields@[i as int]);
        if str_eq(row.fields[i].0.as_str(), key) {
            return Some(&row.fields[i].1);
        }
        assert(rest.skip(1) =~= row.fields@.skip(i + 1));
        i = i + 1;
    }
    None
}

fn opt_cell<'a>(row: Option<&'a JsonRow>, key: &str) -> (r: Option<&'a JsonCell>)
    ensures
        r == match row_cell(
            match row {
                Some(x) => Some(*x),
                None => None,
            },
            key@,
        ) {
            Some(c) => Some(&c),
            None => None::<&JsonCell>,
        },
{
    match row {
        Some(x) => json_cell(x, key),
        None => None,
    }
}

pub open spec fn opt_row(row: Option<&JsonRow>) -> Option<JsonRow> {
    match row {
        Some(x) => Some(*x),
        None => None,
    }
}

fn read_i64(cell: Option<&JsonCell>) -> (r: i64)
    ensures
        r == cell_i64_spec(
            match cell {
                Some(c) => Some(*c),
                None => None,
            },
        ),
{
    match cell {
        Some(JsonCell::PosInt(n)) => if *n <= i64::MAX as u64 {
            *n as i64
        } else {
            0
        },
        Some(JsonCell::NegInt(n)) => *n,
        Some(JsonCell::Str(s)) => match parse_i64(s.as_str()) {
            Ok(n) => n,
            Err(_) => 0,
        },
        _ => 0,
    }
}

fn read_u64(cell: Option<&JsonCell>) -> (r: u64)
    ensures
        r == cell_u64_spec(
            match cell {
                Some(c) => Some(*c),
                None => None,
            },
        ),
{
    match cell {
        Some(JsonCell::Str(s)) => match parse_u64(s.as_str()) {
            Ok(n) => n,
            Err(_) => 0,
        },
        Some(JsonCell::PosInt(n)) => *n,
        _ => 0,
    }
}

fn read_str(cell: Option<&JsonCell>) -> (r: String)
    ensures
        r@ == cell_str_spec(
            match cell {
                Some(c) => Some(*c),
                None => None,
            },
        ),
{
    match cell {
        Some(JsonCell::Str(s)) => s.clone(),
        _ => String::new(),
    }
}

/// Read an `Int64` cell (e.g. `seq`, `expires_at`) from an optional row; 0
/// when the row or cell is absent or unparseable.
pub fn cell_i64(row: Option<&JsonRow>, key: &str) -> (r: i64)
    ensures
        r == cell_i64_spec(row_cell(opt_row(row), key@)),
{
    read_i64(opt_cell(row, key))
}

/// Read a `UInt64` cell (`version`) from an optional row: the string form
/// first, then a JSON number; 0 otherwise.
pub fn cell_u64(row: Option<&JsonRow>, key: &str) -> (r: u64)
    ensures
        r == cell_u64_spec(row_cell(opt_row(row), key@)),
{
    read_u64(opt_cell(row, key))
}

/// Read a `String` cell (`owner_id`) from an optional row; empty when
/// absent.
pub fn cell_str(row: Option<&JsonRow>, key: &str) -> (r: String)
    ensures
        r@ == cell_str_spec(row_cell(opt_row(row), key@)),
{
    read_str(opt_cell(row, key))
}

/// Read an `Int64` cell of a row; 0 when absent or unparseable.
pub fn ch_i64(row: &JsonRow, key: &str) -> (r: i64)
    ensures
        r == cell_i64_spec(json_get(row.fields@, key@)),
{
    read_i64(json_cell(row, key))
}

/// Read an `Int32` cell (retry counts, operation indexes): the `Int64`
/// reading cut to its low 32 bits.
pub fn ch_i32(row: &JsonRow, key: &str) -> (r: i32)
    ensures
        r == cell_i64_spec(json_get(row.fields@, key@)) as i32,
{
    #[verifier::truncate]
    (ch_i64(row, key) as i32)
}

/// Read a `UInt64` cell of a row: the string form first, then a number.
pub fn ch_u64(row: &JsonRow, key: &str) -> (r: u64)
    ensures
        r == cell_u64_spec(json_get(row.fields@, key@)),
{
    read_u64(json_cell(row, key))
}

/// Read a `String` cell of a row; empty when absent.
pub fn ch_str(row: &JsonRow, key: &str) -> (r: String)
    ensures
        r@ == cell_str_spec(json_get(row.fields@, key@)),
{
    read_str(json_cell(row, key))
}

/// An optional epoch-millis column: the sentinel 0 (and any absent or
/// unparseable cell) is absent.
pub fn ch_opt_millis(row: &JsonRow, key: &str) -> (r: Option<i64>)
    ensures
        r == if cell_i64_spec(json_get(row.fields@, key@)) == 0 {
            None
        } else {
            Some(cell_i64_spec(json_get(row.fields@, key@)))
        },
{
    let m = ch_i64(row, key);
    if m == 0 {
        None
    } else {
        Some(m)
    }
}

/// The epoch-millis literal an optional timestamp is written as: the
/// sentinel 0 for none.
pub fn opt_millis_lit(millis: Option<i64>) -> (r: i64)
    ensures
        r == match millis {
            Some(m) => m,
            None => 0,
        },
{
    match millis {
        Some(m) => m,
        None => 0,
    }
}

// ── Neo4j node properties ───────────────────────────────────────────────────

/// A string property of a node map; empty when absent or not a string.
pub fn prop_str(node: &JsonRow, key: &str) -> (r: String)
    ensures
        r@ == cell_str_spec(json_get(node.fields@, key@)),
{
    read_str(json_cell(node, key))
}

/// An integer property (epoch milliseconds, counters, retry counts): a
/// JSON number that fits an `i64`; 0 otherwise (no text form is read).
pub fn prop_i64(node: &JsonRow, key: &str) -> (r: i64)
    ensures
        r == match json_get(node.fields@, key@) {
            Some(c) => match json_as_i64(c) {
                Some(n) => n,
                None => 0,
            },
            None => 0,
        },
{
    match json_cell(node, key) {
        Some(JsonCell::PosInt(n)) => if *n <= i64::MAX as u64 {
            *n as i64
        } else {
            0
        },
        Some(JsonCell::NegInt(n)) => *n,
        _ => 0,
    }
}

/// A 32-bit integer property: the `i64` reading cut to its low 32 bits.
pub fn prop_i32(node: &JsonRow, key: &str) -> (r: i32)
    ensures
        r == (match json_get(node.fields@, key@) {
            Some(c) => match json_as_i64(c) {
                Some(n) => n,
                None => 0,
            },
            None => 0,
        }) as i32,
{
    #[verifier::truncate]
    (prop_i64(node, key) as i32)
}

/// An optional epoch-millis property: present exactly when the property is
/// a number that fits an `i64` (0 included).
pub fn prop_opt_millis(node: &JsonRow, key: &str) -> (r: Option<i64>)
    ensures
        r == match json_get(node.fields@, key@) {
            Some(c) => json_as_i64(c),
            None => None,
        },
{
    match json_cell(node, key) {
        Some(JsonCell::PosInt(n)) => if *n <= i64::MAX as u64 {
            Some(*n as i64)
        } else {
            None
        },
        Some(JsonCell::NegInt(n)) => Some(*n),
        _ => None,
    }
}

// ── CQL cells ───────────────────────────────────────────────────────────────

/// A CQL column value as the readers see it.
#[derive(Debug, Clone)]
pub enum CqlCell {
    Text(String),
    Int(i32),
    BigInt(i64),
    /// Milliseconds since the epoch.
    Timestamp(i64),
    Other,
}

/// A CQL row: its columns by position, `None` for a null column.
#[derive(Debug, Clone)]
pub struct CqlRow {
    pub columns: Vec<Option<CqlCell>>,
}

pub open spec fn cql_col(row: CqlRow, idx: int) -> Option<CqlCell> {
    if 0 <= idx < row.columns@.len() {
        row.columns@[idx]
    } else {
        None
    }
}

fn col(row: &CqlRow, idx: usize) -> (r: Option<&CqlCell>)
    ensures
        r == match cql_col(*row, idx as int) {
            Some(c) => Some(&c),
            None => None::<&CqlCell>,
        },
{
    if idx < row.columns.len() {
        match &row.columns[idx] {
            Some(c) => Some(c),
            None => None,
        }
    } else {
        None
    }
}

/// A text column; empty when absent or of another type.
pub fn get_text(row: &CqlRow, idx: usize) -> (r: String)
    ensures
        r@ == match cql_col(*row, idx as int) {
            Some(CqlCell::Text(s)) => s@,
            _ => Seq::empty(),
        },
{
    match col(row, idx) {
        Some(CqlCell::Text(s)) => s.clone(),
        _ => String::new(),
    }
}

/// An `int` column, a `bigint` cut to 32 bits accepted too; 0 otherwise.
pub fn get_i32(row: &CqlRow, idx: usize) -> (r: i32)
    ensures
        r == match cql_col(*row, idx as int) {
            Some(CqlCell::Int(n)) => n,
            Some(CqlCell::BigInt(n)) => n as i32,
            _ => 0,
        },
{
    match col(row, idx) {
        Some(CqlCell::Int(n)) => *n,
        Some(CqlCell::BigInt(n)) => {
            #[verifier::truncate]
            (*n as i32)
        },
        _ => 0,
    }
}

/// A `bigint` column, an `int` widened accepted too; 0 otherwise.
pub fn get_i64(row: &CqlRow, idx: usize) -> (r: i64)
    ensures
        r == match cql_col(*row, idx as int) {
            Some(CqlCell::BigInt(n)) => n,
            Some(CqlCell::Int(n)) => n as i64,
            _ => 0,
        },
{
    match col(row, idx) {
        Some(CqlCell::BigInt(n)) => *n,
        Some(CqlCell::Int(n)) => *n as i64,
        _ => 0,
    }
}

/// A `timestamp` column's milliseconds, a raw `bigint` accepted too; absent
/// otherwise.
pub fn get_opt_millis(row: &CqlRow, idx: usize) -> (r: Option<i64>)
    ensures
        r == match cql_col(*row, idx as int) {
            Some(CqlCell::Timestamp(m)) => Some(m),
            Some(CqlCell::BigInt(m)) => Some(m),
            _ => None,
        },
{
    match col(row, idx) {
        Some(CqlCell::Timestamp(m)) => Some(*m),
        Some(CqlCell::BigInt(m)) => Some(*m),
        _ => None,
    }
}

// ── Laws ────────────────────────────────────────────────────────────────────

/// An optional timestamp written with the sentinel reads back as itself:
/// absent stays absent, and any non-zero time is kept. (A time of exactly
/// 0 ms is the one that does not round-trip.)
pub proof fn lemma_opt_millis_round_trip(millis: Option<i64>)
    requires
        millis != Some(0i64),
    ensures
        (if (match millis {
            Some(m) => m,
            None => 0,
        }) == 0 {
            None
        } else {
            Some(
                match millis {
                    Some(m) => m,
                    None => 0,
                },
            )
        }) == millis,
{
}

} // verus!
