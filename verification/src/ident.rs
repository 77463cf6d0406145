//! Guards for operator-supplied identifiers that are interpolated into SQL,
//! CQL and Keeper paths, and the quoting of inline SQL string literals.
use vstd::prelude::*;

use vstd::string::StringSliceAdditionalSpecFns;

use crate::text::{ascii_alnum, ascii_alpha, is_ascii_alnum, is_ascii_alpha, push_char};

verus! {

// ── Cassandra identifiers ───────────────────────────────────────────────────

pub open spec fn is_ident_char(c: char) -> bool {
    is_ascii_alnum(c) || c == '_'
}

pub open spec fn is_ident_start(c: char) -> bool {
    is_ascii_alpha(c) || c == '_'
}

/// A bare identifier: non-empty, starts with a letter or `_`, and holds
/// only ASCII letters, digits and `_`.
pub open spec fn is_safe_ident(s: Seq<char>) -> bool {
    &&& s.len() > 0
    &&& is_ident_start(s[0])
    &&& forall|i: int| 0 <= i < s.len() ==> is_ident_char(#[trigger] s[i])
}

/// Whether every character of `s` satisfies the identifier character class.
pub fn all_ident_chars(s: &str) -> (r: bool)
    ensures
        r == (forall|i: int| 0 <= i < s@.len() ==> is_ident_char(#[trigger] s@[i])),
{
    let n = s.unicode_len();
    let mut i: usize = 0;
    while i < n
        invariant
            n == s@.len(),
            i <= n,
            forall|j: int| 0 <= j < i ==> is_ident_char(#[trigger] s@[j]),
        decreases n - i,
    {
        let c = s.get_char(i);
        if !(ascii_alnum(c) || c == '_') {
            return false;
        }
        i = i + 1;
    }
    true
}

/// Validate a Cassandra keyspace / table name so it can be interpolated both
/// unquoted (`CREATE KEYSPACE`) and double-quoted.
pub fn safe_ident(name: &str) -> (r: Result<(), String>)
    ensures
        r is Ok <==> is_safe_ident(name@),
        r matches Err(m) ==> m@ == "unsafe cassandra identifier '"@ + name@ + "'"@,
{
    let ok = if name.unicode_len() == 0 {
        false
    } else {
        let c = name.get_char(0);
        (ascii_alpha(c) || c == '_') && all_ident_chars(name)
    };
    if ok {
        Ok(())
    } else {
        Err(String::from_str("unsafe cassandra identifier '").concat(name).concat("'"))
    }
}

// ── ClickHouse identifiers ──────────────────────────────────────────────────

/// Length in bytes of the UTF-8 encoding of `s`, as `str::len` reports it.
pub open spec fn byte_len(s: Seq<char>) -> usize {
    vstd::utf8::encode_utf8(s).len() as usize
}

pub open spec fn clickhouse_len_message(id: Seq<char>) -> Seq<char> {
    "ClickHouse identifier '"@ + id + "' is invalid: must be 1-64 characters"@
}

pub open spec fn clickhouse_start_message(id: Seq<char>) -> Seq<char> {
    "ClickHouse identifier '"@ + id + "' must start with a letter or underscore"@
}

pub open spec fn clickhouse_chars_message(id: Seq<char>) -> Seq<char> {
    "ClickHouse identifier '"@ + id
        + "' contains invalid characters; only ASCII letters, digits, and underscores are allowed"@
}

/// The message a refused ClickHouse identifier gets: the first rule it
/// breaks, in the order length, first character, other characters.
pub open spec fn clickhouse_ident_message(id: Seq<char>) -> Seq<char> {
    if id.len() == 0 || byte_len(id) > 64 {
        clickhouse_len_message(id)
    } else if !is_ident_start(id[0]) {
        clickhouse_start_message(id)
    } else {
        clickhouse_chars_message(id)
    }
}

/// Validate a ClickHouse database name before it is back-quoted into SQL:
/// 1 to 64 bytes, a letter or `_` first, then only ASCII letters, digits and
/// `_`. Each failed rule has its own message, checked in that order.
pub fn clickhouse_safe_ident(id: &str) -> (r: Result<(), String>)
    ensures
        r is Ok <==> (is_safe_ident(id@) && byte_len(id@) <= 64),
        (id@.len() == 0 || byte_len(id@) > 64) ==> (r matches Err(m) && m@
            == clickhouse_len_message(id@)),
        (id@.len() > 0 && byte_len(id@) <= 64 && !is_ident_start(id@[0])) ==> (r matches Err(
            m,
        ) && m@ == clickhouse_start_message(id@)),
        (id@.len() > 0 && byte_len(id@) <= 64 && is_ident_start(id@[0]) && !is_safe_ident(
            id@,
        )) ==> (r matches Err(m) && m@ == clickhouse_chars_message(id@)),
        r matches Err(m) ==> m@ == clickhouse_ident_message(id@),
{
    if id.is_empty() || id.len() > 64 {
        return Err(
            String::from_str("ClickHouse identifier '").concat(id).concat(
                "' is invalid: must be 1-64 characters",
            ),
        );
    }
    let first = id.get_char(0);
    if !ascii_alpha(first) && first != '_' {
        return Err(
            String::from_str("ClickHouse identifier '").concat(id).concat(
                "' must start with a letter or underscore",
            ),
        );
    }
    if !all_ident_chars(id) {
        return Err(
            String::from_str("ClickHouse identifier '").concat(id).concat(
                "' contains invalid characters; only ASCII letters, digits, and underscores are allowed",
            ),
        );
    }
    Ok(())
}

// ── SQL relation names ──────────────────────────────────────────────────────

/// Characters allowed in a SQL Server relation: ASCII letters, digits, `_`,
/// `.` and the `[`/`]` quoting brackets.
pub open spec fn is_mssql_relation_char(c: char) -> bool {
    is_ascii_alnum(c) || c == '_' || c == '.' || c == '[' || c == ']'
}

/// Characters allowed in a MySQL relation: ASCII letters, digits, `_`, `.`
/// and the backtick quote.
pub open spec fn is_mysql_relation_char(c: char) -> bool {
    is_ascii_alnum(c) || c == '_' || c == '.' || c == '`'
}

pub open spec fn is_safe_mssql_relation(s: Seq<char>) -> bool {
    s.len() > 0 && forall|i: int| 0 <= i < s.len() ==> is_mssql_relation_char(#[trigger] s[i])
}

pub open spec fn is_safe_mysql_relation(s: Seq<char>) -> bool {
    s.len() > 0 && forall|i: int| 0 <= i < s.len() ==> is_mysql_relation_char(#[trigger] s[i])
}

pub fn is_mssql_relation(s: &str) -> (r: bool)
    ensures
        r == is_safe_mssql_relation(s@),
{
    let n = s.unicode_len();
    if n == 0 {
        return false;
    }
    let mut i: usize = 0;
    while i < n
        invariant
            n == s@.len(),
            i <= n,
            forall|j: int| 0 <= j < i ==> is_mssql_relation_char(#[trigger] s@[j]),
        decreases n - i,
    {
        let c = s.get_char(i);
        if !(ascii_alnum(c) || c == '_' || c == '.' || c == '[' || c == ']') {
            return false;
        }
        i = i + 1;
    }
    true
}

pub fn is_mysql_relation(s: &str) -> (r: bool)
    ensures
        r == is_safe_mysql_relation(s@),
{
    let n = s.unicode_len();
    if n == 0 {
        return false;
    }
    let mut i: usize = 0;
    while i < n
        invariant
            n == s@.len(),
            i <= n,
            forall|j: int| 0 <= j < i ==> is_mysql_relation_char(#[trigger] s@[j]),
        decreases n - i,
    {
        let c = s.get_char(i);
        if !(ascii_alnum(c) || c == '_' || c == '.' || c == '`') {
            return false;
        }
        i = i + 1;
    }
    true
}

// ── Inline SQL string literals ──────────────────────────────────────────────

/// `s` with every single quote doubled.
pub open spec fn escape_quotes(s: Seq<char>) -> Seq<char>
    decreases s.len(),
{
    if s.len() == 0 {
        Seq::empty()
    } else if s.last() == '\'' {
        escape_quotes(s.drop_last()) + seq!['\'', '\'']
    } else {
        escape_quotes(s.drop_last()).push(s.last())
    }
}

/// `s` as a single-quoted SQL string literal.
pub open spec fn sql_lit_spec(s: Seq<char>) -> Seq<char> {
    seq!['\''] + escape_quotes(s) + seq!['\'']
}

/// Reading a literal's body left to right: a doubled quote stands for one
/// quote; the body is well formed when no quote stands alone.
pub open spec fn quotes_paired(t: Seq<char>) -> bool
    decreases t.len(),
{
    if t.len() == 0 {
        true
    } else if t[0] == '\'' {
        t.len() >= 2 && t[1] == '\'' && quotes_paired(t.skip(2))
    } else {
        quotes_paired(t.skip(1))
    }
}

/// The text a well-formed literal body stands for.
pub open spec fn unescape_quotes(t: Seq<char>) -> Seq<char>
    decreases t.len(),
{
    if t.len() == 0 {
        Seq::empty()
    } else if t[0] == '\'' && t.len() >= 2 && t[1] == '\'' {
        seq!['\''] + unescape_quotes(t.skip(2))
    } else {
        seq![t[0]] + unescape_quotes(t.skip(1))
    }
}

/// Escape a string as an inline SQL literal: wrapped in single quotes with
/// every inner single quote doubled.
pub fn sql_lit(s: &str) -> (r: String)
    ensures
        r@ == sql_lit_spec(s@),
{
    let n = s.unicode_len();
    let mut out = String::new();
    push_char(&mut out, '\'');
    let mut i: usize = 0;
    while i < n
        invariant
            n == s@.len(),
            i <= n,
            out@ == seq!['\''] + escape_quotes(s@.take(i as int)),
        decreases n - i,
    {
        let c = s.get_char(i);
        assert(s@.take(i + 1).drop_last() =~= s@.take(i as int));
        if c == '\'' {
            push_char(&mut out, '\'');
            push_char(&mut out, '\'');
            assert(out@ =~= seq!['\''] + escape_quotes(s@.take(i + 1)));
        } else {
            push_char(&mut out, c);
            assert(out@ =~= seq!['\''] + escape_quotes(s@.take(i + 1)));
        }
        i = i + 1;
    }
    assert(s@.take(n as int) =~= s@);
    push_char(&mut out, '\'');
    assert(out@ =~= sql_lit_spec(s@));
    out
}

/// Escaping quotes works piecewise: escaping a concatenation is the
/// concatenation of the escaped pieces.
pub proof fn lemma_escape_concat(a: Seq<char>, b: Seq<char>)
    ensures
        escape_quotes(a + b) == escape_quotes(a) + escape_quotes(b),
    decreases b.len(),
{
    if b.len() == 0 {
        assert(a + b =~= a);
        assert(escape_quotes(b) =~= Seq::<char>::empty());
        assert(escape_quotes(a) + escape_quotes(b) =~= escape_quotes(a));
    } else {
        assert((a + b).drop_last() =~= a + b.drop_last());
        assert((a + b).last() == b.last());
        lemma_escape_concat(a, b.drop_last());
        if b.last() == '\'' {
            assert(escape_quotes(a + b) =~= escape_quotes(a) + escape_quotes(b));
        } else {
            assert(escape_quotes(a + b) =~= escape_quotes(a) + escape_quotes(b));
        }
    }
}

/// The body of a quoted literal is well formed and reads back as the
/// text it quotes, so no input can close the literal early.
pub proof fn lemma_sql_lit_round_trip(s: Seq<char>)
    ensures
        quotes_paired(escape_quotes(s)),
        unescape_quotes(escape_quotes(s)) == s,
    decreases s.len(),
{
    if s.len() == 0 {
        assert(escape_quotes(s) =~= Seq::<char>::empty());
    } else {
        let head = s.take(1);
        let tail = s.skip(1);
        assert(s =~= head + tail);
        lemma_escape_concat(head, tail);
        lemma_sql_lit_round_trip(tail);
        assert(head.drop_last() =~= Seq::<char>::empty());
        assert(escape_quotes(Seq::<char>::empty()) =~= Seq::<char>::empty());
        let e = escape_quotes(s);
        if s[0] == '\'' {
            assert(escape_quotes(head) =~= seq!['\'', '\'']);
            assert(e =~= seq!['\'', '\''] + escape_quotes(tail));
            assert(e.skip(2) =~= escape_quotes(tail));
            assert(unescape_quotes(e) =~= seq!['\''] + tail);
        } else {
            assert(escape_quotes(head) =~= seq![s[0]]);
            assert(e =~= seq![s[0]] + escape_quotes(tail));
            assert(e.skip(1) =~= escape_quotes(tail));
            assert(unescape_quotes(e) =~= seq![s[0]] + tail);
        }
    }
}

// ── Keeper path components ──────────────────────────────────────────────────

pub open spec fn is_keeper_path_char(c: char) -> bool {
    is_ascii_alnum(c) || c == '_' || c == '-' || c == '.'
}

pub open spec fn keeper_char(c: char) -> char {
    if is_keeper_path_char(c) {
        c
    } else {
        '_'
    }
}

/// At most the first 64 characters of `raw`, each kept when it is an ASCII
/// letter, digit, `_`, `-` or `.` and replaced by `_` otherwise; `default`
/// when nothing is left.
pub open spec fn keeper_path_component_spec(raw: Seq<char>) -> Seq<char> {
    if raw.len() == 0 {
        "default"@
    } else {
        let n = if raw.len() < 64 {
            raw.len() as int
        } else {
            64
        };
        Seq::new(n as nat, |i: int| keeper_char(raw[i]))
    }
}

/// Sanitise a free-form name (database / instance) into one component of a
/// ClickHouse Keeper path.
pub fn safe_keeper_path_component(raw: &str) -> (r: String)
    ensures
        r@ == keeper_path_component_spec(raw@),
{
    let len = raw.unicode_len();
    let n: usize = if len < 64 {
        len
    } else {
        64
    };
    let mut out = String::new();
    let mut i: usize = 0;
    while i < n
        invariant
            len == raw@.len(),
            n <= len,
            n <= 64,
            i <= n,
            out@ =~= Seq::new(i as nat, |j: int| keeper_char(raw@[j])),
        decreases n - i,
    {
        let c = raw.get_char(i);
        if ascii_alnum(c) || c == '_' || c == '-' || c == '.' {
            push_char(&mut out, c);
        } else {
            push_char(&mut out, '_');
        }
        i = i + 1;
    }
    if n == 0 {
        String::from_str("default")
    } else {
        out
    }
}

/// A sanitised component is never empty, never longer than 64 characters,
/// and holds only path-safe characters (in particular no `/`).
pub proof fn lemma_keeper_path_component_is_safe(raw: Seq<char>)
    requires
        raw.len() > 0,
    ensures
        keeper_path_component_spec(raw).len() > 0,
        keeper_path_component_spec(raw).len() <= 64,
        forall|i: int|
            0 <= i < keeper_path_component_spec(raw).len() ==> is_keeper_path_char(
                #[trigger] keeper_path_component_spec(raw)[i],
            ),
{
    assert(is_keeper_path_char('_')) by {
        assert(!is_ascii_alnum('_') || is_ascii_alnum('_'));
    }
}

} // verus!
