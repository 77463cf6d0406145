//! Text columns decoded into identifiers and instants: UUID columns of every
//! backend, and the ISO-8601 timestamps SQL Server renders as text. The
//! parsing itself is the `uuid` and `chrono` crates'; which text is handed
//! to them, in what order, and what each failure reports is decided here.
use vstd::prelude::*;

use crate::cells::{cell_str_spec, ch_str, cql_col, json_get, CqlCell, CqlRow, JsonCell, JsonRow};
use crate::status::SystemStoreError;
use crate::text::{nat_decimal, usize_to_decimal};

verus! {

// ── Trusted parsers ─────────────────────────────────────────────────────────

/// What `uuid::Uuid::parse_str` reads from `text`, as the UUID's 128-bit
/// big-endian value; `None` where it refuses the text.
pub uninterp spec fn uuid_parse_str(text: Seq<char>) -> Option<u128>;

/// `uuid::Uuid::parse_str`: the UUID read from `text` (any of the simple,
/// hyphenated, urn and braced forms the crate documents) as its `as_u128`
/// value. Claimed: success and the value are those of the named result.
/// On failure the error's `Display` text is returned; nothing is stated of
/// that text.
#[verifier::external_body]
fn parse_uuid(text: &str) -> (r: Result<u128, String>)
    ensures
        r is Ok <==> uuid_parse_str(text@) is Some,
        r matches Ok(v) ==> uuid_parse_str(text@) == Some(v),
{
    match uuid::Uuid::parse_str(text) {
        Ok(u) => Ok(u.as_u128()),
        Err(e) => Err(e.to_string()),
    }
}

/// What `chrono::DateTime::parse_from_rfc3339` reads from `text`, as the
/// instant's UTC epoch seconds and sub-second nanoseconds; `None` where it
/// refuses the text.
pub uninterp spec fn rfc3339_instant(text: Seq<char>) -> Option<(i64, u32)>;

/// `chrono::DateTime::parse_from_rfc3339`, the instant as (`timestamp`,
/// `timestamp_subsec_nanos`). Claimed: the result is the named one.
#[verifier::external_body]
fn parse_rfc3339_instant(text: &str) -> (r: Option<(i64, u32)>)
    ensures
        r == rfc3339_instant(text@),
{
    match chrono::DateTime::parse_from_rfc3339(text) {
        Ok(dt) => Some((dt.timestamp(), dt.timestamp_subsec_nanos())),
        Err(_) => None,
    }
}

/// What `chrono::NaiveDateTime::parse_from_str(text, fmt)` reads, taken as
/// UTC, as epoch seconds and sub-second nanoseconds; `None` where it
/// refuses the text.
pub uninterp spec fn naive_instant(text: Seq<char>, fmt: Seq<char>) -> Option<(i64, u32)>;

/// `chrono::NaiveDateTime::parse_from_str`, the naive date-time read as UTC
/// (`and_utc()`), as (`timestamp`, `timestamp_subsec_nanos`). Claimed: the
/// result is the named one.
#[verifier::external_body]
fn parse_naive_instant(text: &str, fmt: &str) -> (r: Option<(i64, u32)>)
    ensures
        r == naive_instant(text@, fmt@),
{
    match chrono::NaiveDateTime::parse_from_str(text, fmt) {
        Ok(ndt) => Some((ndt.and_utc().timestamp(), ndt.and_utc().timestamp_subsec_nanos())),
        Err(_) => None,
    }
}

// ── Trimming ────────────────────────────────────────────────────────────────

/// Unicode `White_Space`, the characters `str::trim` removes.
pub open spec fn is_white_space(c: char) -> bool {
    let u = c as u32;
    (0x9 <= u && u <= 0xD) || u == 0x20 || u == 0x85 || u == 0xA0 || u == 0x1680 || (0x2000 <= u
        && u <= 0x200A) || u == 0x2028 || u == 0x2029 || u == 0x202F || u == 0x205F || u == 0x3000
}

fn white_space(c: char) -> (r: bool)
    ensures
        r == is_white_space(c),
{
    let u = c as u32;
    (0x9 <= u && u <= 0xD) || u == 0x20 || u == 0x85 || u == 0xA0 || u == 0x1680 || (0x2000 <= u
        && u <= 0x200A) || u == 0x2028 || u == 0x2029 || u == 0x202F || u == 0x205F || u == 0x3000
}

/// `s` without leading white space.
pub open spec fn trim_start_spec(s: Seq<char>) -> Seq<char>
    decreases s.len(),
{
    if s.len() > 0 && is_white_space(s[0]) {
        trim_start_spec(s.skip(1))
    } else {
        s
    }
}

/// `s` without trailing white space.
pub open spec fn trim_end_spec(s: Seq<char>) -> Seq<char>
    decreases s.len(),
{
    if s.len() > 0 && is_white_space(s.last()) {
        trim_end_spec(s.drop_last())
    } else {
        s
    }
}

/// `s` without leading and trailing white space (what `str::trim` gives).
pub open spec fn trim_spec(s: Seq<char>) -> Seq<char> {
    trim_end_spec(trim_start_spec(s))
}

/// `s` without leading and trailing white space.
pub fn trim(s: &str) -> (r: &str)
    ensures
        r@ == trim_spec(s@),
{
    let n = s.unicode_len();
    let mut i: usize = 0;
    assert(s@.skip(0) =~= s@);
    while i < n && white_space(s.get_char(i))
        invariant
            n == s@.len(),
            i <= n,
            trim_start_spec(s@) == trim_start_spec(s@.skip(i as int)),
        decreases n - i,
    {
        assert(s@.skip(i as int)[0] == s@[i as int]);
        assert(s@.skip(i as int).skip(1) =~= s@.skip(i + 1));
        i = i + 1;
    }
    let ghost start = s@.skip(i as int);
    assert(trim_start_spec(start) == start) by {
        if start.len() > 0 {
            assert(start[0] == s@[i as int]);
        }
    }
    let mut j: usize = n;
    assert(start =~= s@.subrange(i as int, n as int));
    while j > i && white_space(s.get_char(j - 1))
        invariant
            n == s@.len(),
            i <= j <= n,
            start == s@.subrange(i as int, n as int),
            trim_end_spec(start) == trim_end_spec(s@.subrange(i as int, j as int)),
        decreases j - i,
    {
        assert(s@.subrange(i as int, j as int).last() == s@[j - 1]);
        assert(s@.subrange(i as int, j as int).drop_last() =~= s@.subrange(i as int, j - 1));
        j = j - 1;
    }
    proof {
        let t = s@.subrange(i as int, j as int);
        if t.len() > 0 {
            assert(t.last() == s@[j - 1]);
        }
        assert(trim_end_spec(t) == t);
    }
    s.substring_char(i, j)
}

// ── UUID columns ────────────────────────────────────────────────────────────

/// `r` is the UUID column read: the parsed value where the parser accepts
/// `parsed`, else an `InvalidInput` whose text starts with `head` followed
/// by `": "` and the parser's own message.
pub open spec fn uuid_read(r: Result<u128, SystemStoreError>, parsed: Seq<char>, head: Seq<char>) -> bool {
    &&& r is Ok <==> uuid_parse_str(parsed) is Some
    &&& r matches Ok(v) ==> uuid_parse_str(parsed) == Some(v)
    &&& r is Err ==> (r matches Err(SystemStoreError::InvalidInput(m)) && m@.len() >= head.len() + 2
        && m@.subrange(0, head.len() + 2int) == head + ": "@)
}

fn uuid_or_error(parsed: &str, head: String) -> (r: Result<u128, SystemStoreError>)
    ensures
        uuid_read(r, parsed@, head@),
{
    match parse_uuid(parsed) {
        Ok(v) => Ok(v),
        Err(detail) => {
            let ghost h = head@;
            proof {
                reveal_strlit(": ");
            }
            let m = head.concat(": ").concat(detail.as_str());
            assert(m@.subrange(0, h.len() + 2int) =~= h + ": "@);
            Err(SystemStoreError::InvalidInput(m))
        },
    }
}

/// A SQL Server `NVARCHAR(36)` UUID cell, read after trimming white space.
pub fn parse_uuid_cell(s: &str) -> (r: Result<u128, SystemStoreError>)
    ensures
        uuid_read(r, trim_spec(s@), "invalid uuid '"@ + s@ + "' in mssql row"@),
{
    let head = String::from_str("invalid uuid '").concat(s).concat("' in mssql row");
    uuid_or_error(trim(s), head)
}

/// A ClickHouse text column holding a UUID; an absent column reads as the
/// empty text (and fails to parse).
pub fn ch_uuid(row: &JsonRow, key: &str) -> (r: Result<u128, SystemStoreError>)
    ensures
        uuid_read(
            r,
            cell_str_spec(json_get(row.fields@, key@)),
            "clickhouse row column '"@ + key@ + "' is not a uuid '"@ + cell_str_spec(
                json_get(row.fields@, key@),
            ) + "'"@,
        ),
{
    let raw = ch_str(row, key);
    let head = String::from_str("clickhouse row column '").concat(key).concat(
        "' is not a uuid '",
    ).concat(raw.as_str()).concat("'");
    uuid_or_error(raw.as_str(), head)
}

/// A Cassandra text column holding a UUID; a missing or non-text column is
/// an error naming the column.
pub fn get_uuid(row: &CqlRow, idx: usize) -> (r: Result<u128, SystemStoreError>)
    ensures
        match cql_col(*row, idx as int) {
            Some(CqlCell::Text(raw)) => uuid_read(
                r,
                raw@,
                "cassandra row column "@ + nat_decimal(idx as nat) + " is not a uuid '"@ + raw@
                    + "'"@,
            ),
            _ => r matches Err(SystemStoreError::InvalidInput(m)) && m@
                == "cassandra row missing text uuid at column "@ + nat_decimal(idx as nat),
        },
{
    let text: Option<&String> = if idx < row.columns.len() {
        match &row.columns[idx] {
            Some(CqlCell::Text(raw)) => Some(raw),
            _ => None,
        }
    } else {
        None
    };
    match text {
        Some(raw) => {
            let head = String::from_str("cassandra row column ").concat(
                usize_to_decimal(idx).as_str(),
            ).concat(" is not a uuid '").concat(raw.as_str()).concat("'");
            uuid_or_error(raw.as_str(), head)
        },
        _ => Err(
            SystemStoreError::InvalidInput(
                String::from_str("cassandra row missing text uuid at column ").concat(
                    usize_to_decimal(idx).as_str(),
                ),
            ),
        ),
    }
}

/// A Neo4j node property holding a UUID string; a missing or non-string
/// property is an error naming it.
pub fn prop_uuid(node: &JsonRow, key: &str) -> (r: Result<u128, SystemStoreError>)
    ensures
        match json_get(node.fields@, key@) {
            Some(JsonCell::Str(raw)) => uuid_read(
                r,
                raw@,
                "neo4j row property '"@ + key@ + "' is not a uuid '"@ + raw@ + "'"@,
            ),
            _ => r matches Err(SystemStoreError::InvalidInput(m)) && m@
                == "neo4j row missing string uuid property '"@ + key@ + "'"@,
        },
{
    match crate::cells::json_cell(node, key) {
        Some(JsonCell::Str(raw)) => {
            let head = String::from_str("neo4j row property '").concat(key).concat(
                "' is not a uuid '",
            ).concat(raw.as_str()).concat("'");
            uuid_or_error(raw.as_str(), head)
        },
        _ => Err(
            SystemStoreError::InvalidInput(
                String::from_str("neo4j row missing string uuid property '").concat(key).concat(
                    "'",
                ),
            ),
        ),
    }
}

/// A MongoDB string field holding a UUID: `field` is the field's text, or
/// the driver's message when it is missing or not a string.
pub fn parse_uuid_id(field: Result<&str, &str>, key: &str) -> (r: Result<u128, SystemStoreError>)
    ensures
        match field {
            Ok(raw) => uuid_read(
                r,
                raw@,
                "mongodb row '"@ + key@ + "' is not a uuid '"@ + raw@ + "'"@,
            ),
            Err(e) => r matches Err(SystemStoreError::InvalidInput(m)) && m@
                == "mongodb row missing string '"@ + key@ + "': "@ + e@,
        },
{
    match field {
        Ok(raw) => {
            let head = String::from_str("mongodb row '").concat(key).concat("' is not a uuid '").concat(
                raw,
            ).concat("'");
            uuid_or_error(raw, head)
        },
        Err(e) => Err(
            SystemStoreError::InvalidInput(
                String::from_str("mongodb row missing string '").concat(key).concat("': ").concat(e),
            ),
        ),
    }
}

/// A MySQL id column (`audit_id`, `task_id`, `saga_id`, `run_id`) holding
/// a UUID.
pub fn uuid_column(column: &str, text: &str) -> (r: Result<u128, SystemStoreError>)
    ensures
        uuid_read(r, text@, column@ + " '"@ + text@ + "' is not a valid UUID"@),
{
    let head = String::from_str(column).concat(" '").concat(text).concat("' is not a valid UUID");
    uuid_or_error(text, head)
}

// ── SQL Server timestamps ───────────────────────────────────────────────────

/// The formats tried after RFC 3339, in order: SQL Server renders
/// `datetime2` without an offset, read as UTC.
pub open spec fn naive_format(k: int) -> Seq<char> {
    if k == 0 {
        "%Y-%m-%dT%H:%M:%S%.f"@
    } else if k == 1 {
        "%Y-%m-%d %H:%M:%S%.f"@
    } else if k == 2 {
        "%Y-%m-%dT%H:%M:%S"@
    } else {
        "%Y-%m-%d %H:%M:%S"@
    }
}

/// The first of the naive formats from `k` on that reads `t`.
pub open spec fn first_naive(t: Seq<char>, k: int) -> Option<(i64, u32)>
    decreases 4 - k,
{
    if k >= 4 || k < 0 {
        None
    } else {
        match naive_instant(t, naive_format(k)) {
            Some(m) => Some(m),
            None => first_naive(t, k + 1),
        }
    }
}

/// An ISO-8601 timestamp cell as a UTC instant (epoch seconds and
/// sub-second nanoseconds, so no precision is lost): absent or blank is
/// `None`; RFC 3339 (with an offset) is tried first, then the naive formats
/// in order.
pub open spec fn iso_utc_spec(s: Option<Seq<char>>) -> Option<(i64, u32)> {
    match s {
        None => None,
        Some(raw) => {
            let t = trim_spec(raw);
            if t.len() == 0 {
                None
            } else {
                match rfc3339_instant(t) {
                    Some(m) => Some(m),
                    None => first_naive(t, 0),
                }
            }
        },
    }
}

/// Read a SQL Server timestamp cell (`CONVERT(NVARCHAR, …, 127)`).
pub fn parse_iso_utc(s: Option<&str>) -> (r: Option<(i64, u32)>)
    ensures
        r == iso_utc_spec(
            match s {
                Some(t) => Some(t@),
                None => None,
            },
        ),
{
    let text = match s {
        Some(t) => trim(t),
        None => {
            return None;
        },
    };
    if text.unicode_len() == 0 {
        return None;
    }
    if let Some(m) = parse_rfc3339_instant(text) {
        return Some(m);
    }
    proof {
        reveal_with_fuel(first_naive, 5);
    }
    if let Some(m) = parse_naive_instant(text, "%Y-%m-%dT%H:%M:%S%.f") {
        return Some(m);
    }
    if let Some(m) = parse_naive_instant(text, "%Y-%m-%d %H:%M:%S%.f") {
        return Some(m);
    }
    if let Some(m) = parse_naive_instant(text, "%Y-%m-%dT%H:%M:%S") {
        return Some(m);
    }
    parse_naive_instant(text, "%Y-%m-%d %H:%M:%S")
}

// ── Laws ────────────────────────────────────────────────────────────────────

/// Trimming is idempotent: a trimmed cell trims to itself.
pub proof fn lemma_trim_idempotent(s: Seq<char>)
    ensures
        trim_spec(trim_spec(s)) == trim_spec(s),
{
    lemma_trim_start_result(s);
    lemma_trim_end_keeps_start(trim_start_spec(s));
    lemma_trim_end_result(trim_start_spec(s));
    let t = trim_spec(s);
    assert(trim_start_spec(t) == t);
}

proof fn lemma_trim_start_result(s: Seq<char>)
    ensures
        trim_start_spec(s).len() == 0 || !is_white_space(trim_start_spec(s)[0]),
    decreases s.len(),
{
    if s.len() > 0 && is_white_space(s[0]) {
        lemma_trim_start_result(s.skip(1));
    }
}

proof fn lemma_trim_end_result(s: Seq<char>)
    ensures
        trim_end_spec(s).len() == 0 || !is_white_space(trim_end_spec(s).last()),
        trim_end_spec(trim_end_spec(s)) == trim_end_spec(s),
    decreases s.len(),
{
    if s.len() > 0 && is_white_space(s.last()) {
        lemma_trim_end_result(s.drop_last());
    }
}

/// Trimming the end of a text that starts with a non-blank keeps that
/// start, so the front stays trimmed.
proof fn lemma_trim_end_keeps_start(s: Seq<char>)
    requires
        s.len() == 0 || !is_white_space(s[0]),
    ensures
        trim_end_spec(s).len() == 0 || trim_end_spec(s)[0] == s[0],
        trim_start_spec(trim_end_spec(s)) == trim_end_spec(s),
    decreases s.len(),
{
    if s.len() > 0 && is_white_space(s.last()) {
        if s.len() > 1 {
            assert(s.drop_last()[0] == s[0]);
        }
        lemma_trim_end_keeps_start(s.drop_last());
    }
}

} // verus!
