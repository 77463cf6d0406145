//! MySQL durability tokens. In GTID mode the token is the executed GTID set
//! (`gtid:<set>`); otherwise it is a binlog coordinate (`file:<file>:<pos>`).
//! This module mints and reads both forms and decides the coordinate
//! comparisons that the MySQL wait performs around its server calls.
use vstd::prelude::*;

use crate::text::{
    is_prefix, last_index_of, lemma_int_decimal_chars, lemma_last_index_of,
    lemma_parse_u64_of_decimal, nat_decimal, int_decimal, parse_u64, parse_u64_spec, push_char,
    rsplit_once, strip_prefix, u64_to_decimal, upper_code, upper_code_of, seq_char_lt, str_lt,
    lemma_seq_char_lt_irreflexive, lemma_seq_char_lt_total, str_eq,
};
use crate::token::{DurabilityToken, WaitStep, foreign_token_message};

verus! {

/// The two token forms a MySQL store mints, and anything else.
#[derive(Debug, Clone, PartialEq, Eq)]
pub enum MysqlTokenForm {
    /// `gtid:<set>`: wait with `WAIT_FOR_EXECUTED_GTID_SET(<set>, …)`.
    Gtid(String),
    /// `file:<file>:<pos>`: compare binlog coordinates.
    FilePos { file: String, pos: u64 },
    /// Any other value: poll until the current token equals it.
    Other,
}

/// The spec-level reading of a token value.
pub enum MysqlTokenFormView {
    Gtid(Seq<char>),
    FilePos(Seq<char>, u64),
    Other,
    /// A `file:` value without a `:` before the position.
    MissingPosition,
    /// A `file:` value whose position is not a decimal `u64`.
    BadPosition(Seq<char>),
}

pub open spec fn gtid_prefix() -> Seq<char> {
    "gtid:"@
}

pub open spec fn file_prefix() -> Seq<char> {
    "file:"@
}

/// How a token value reads: the `gtid:` prefix first, then `file:` with the
/// position after the last `:`.
pub open spec fn mysql_token_form_spec(value: Seq<char>) -> MysqlTokenFormView {
    if is_prefix(gtid_prefix(), value) {
        MysqlTokenFormView::Gtid(value.skip(gtid_prefix().len() as int))
    } else if is_prefix(file_prefix(), value) {
        let rest = value.skip(file_prefix().len() as int);
        match last_index_of(rest, ':') {
            None => MysqlTokenFormView::MissingPosition,
            Some(i) => {
                let pos_text = rest.subrange(i + 1, rest.len() as int);
                match parse_u64_spec(pos_text) {
                    Some(p) => MysqlTokenFormView::FilePos(rest.subrange(0, i), p),
                    None => MysqlTokenFormView::BadPosition(pos_text),
                }
            },
        }
    } else {
        MysqlTokenFormView::Other
    }
}

/// Whether the server's `gtid_mode` value enables GTIDs: any value that,
/// ASCII upper-cased, starts with `ON`.
pub open spec fn gtid_mode_on_spec(mode: Option<Seq<char>>) -> bool {
    match mode {
        Some(m) => m.len() >= 2 && upper_code(m[0]) == 79 && upper_code(m[1]) == 78,
        None => false,
    }
}

/// Read the probe of `@@GLOBAL.gtid_mode` (`ON`, `ON_PERMISSIVE`,
/// `OFF_PERMISSIVE`, `OFF`); a missing row means no GTIDs.
pub fn gtid_mode_on(mode: Option<&str>) -> (r: bool)
    ensures
        r == gtid_mode_on_spec(
            match mode {
                Some(m) => Some(m@),
                None => None,
            },
        ),
{
    match mode {
        Some(m) => {
            if m.unicode_len() < 2 {
                false
            } else {
                upper_code_of(m.get_char(0)) == 79 && upper_code_of(m.get_char(1)) == 78
            }
        },
        None => false,
    }
}

/// Token for an executed GTID set.
pub fn mysql_gtid_token(gtid_executed: &str) -> (t: DurabilityToken)
    ensures
        t.backend_label@ == "mysql"@,
        t.value@ == gtid_prefix() + gtid_executed@,
{
    DurabilityToken {
        backend_label: String::from_str("mysql"),
        value: String::from_str("gtid:").concat(gtid_executed),
    }
}

/// Token for a binlog coordinate.
pub fn mysql_file_token(file: &str, pos: u64) -> (t: DurabilityToken)
    ensures
        t.backend_label@ == "mysql"@,
        t.value@ == file_prefix() + file@ + seq![':'] + nat_decimal(pos as nat),
{
    let mut v = String::from_str("file:").concat(file);
    push_char(&mut v, ':');
    let p = u64_to_decimal(pos);
    let value = v.concat(p.as_str());
    DurabilityToken { backend_label: String::from_str("mysql"), value }
}

/// Read a MySQL token value. A `file:` value without a position, or with a
/// position that is not a decimal `u64`, is an error.
pub fn mysql_token_form(value: &str) -> (r: Result<MysqlTokenForm, String>)
    ensures
        mysql_token_form_spec(value@) matches MysqlTokenFormView::Gtid(g) ==> (r matches Ok(
            MysqlTokenForm::Gtid(s),
        ) && s@ == g),
        mysql_token_form_spec(value@) matches MysqlTokenFormView::FilePos(f, p) ==> (r matches Ok(
            MysqlTokenForm::FilePos { file, pos },
        ) && file@ == f && pos == p),
        mysql_token_form_spec(value@) is Other ==> r == Ok::<MysqlTokenForm, String>(
            MysqlTokenForm::Other,
        ),
        mysql_token_form_spec(value@) is MissingPosition ==> (r matches Err(m) && m@
            == "malformed mysql file-position token '"@ + value@
            + "': expected 'file:<file>:<pos>'"@),
        mysql_token_form_spec(value@) matches MysqlTokenFormView::BadPosition(p) ==> (r matches Err(
            m,
        ) && m@.len() >= ("invalid binlog position '"@ + p + "'"@).len() && m@.subrange(
            0,
            ("invalid binlog position '"@ + p + "'"@).len() as int,
        ) == "invalid binlog position '"@ + p + "'"@),
{
    if let Some(gtid) = strip_prefix(value, "gtid:") {
        return Ok(MysqlTokenForm::Gtid(String::from_str(gtid)));
    }
    if let Some(file_pos) = strip_prefix(value, "file:") {
        match rsplit_once(file_pos, ':') {
            None => {
                return Err(
                    String::from_str("malformed mysql file-position token '").concat(value).concat(
                        "': expected 'file:<file>:<pos>'",
                    ),
                );
            },
            Some((file, pos_text)) => {
                match parse_u64(pos_text) {
                    Ok(pos) => {
                        return Ok(MysqlTokenForm::FilePos { file: String::from_str(file), pos });
                    },
                    Err(detail) => {
                        let head = String::from_str("invalid binlog position '").concat(
                            pos_text,
                        ).concat("'");
                        let ghost h = head@;
                        let m = head.concat(": ").concat(detail.as_str());
                        assert(m@.subrange(0, h.len() as int) =~= h);
                        return Err(m);
                    },
                }
            },
        }
    }
    Ok(MysqlTokenForm::Other)
}

// ── Binlog coordinate order ─────────────────────────────────────────────────

/// `(cur_file, cur_pos) >= (file, pos)` in tuple order.
pub open spec fn coordinate_reached_spec(cur_file: Seq<char>, cur_pos: u64, file: Seq<char>, pos: u64) -> bool {
    if cur_file == file {
        cur_pos >= pos
    } else {
        seq_char_lt(file, cur_file)
    }
}

/// Whether the current binlog coordinate has reached a target coordinate.
/// Zero-padded sequential binlog file names order lexically, so the tuple
/// comparison is the replication order.
pub fn coordinate_reached(cur_file: &str, cur_pos: u64, file: &str, pos: u64) -> (r: bool)
    ensures
        r == coordinate_reached_spec(cur_file@, cur_pos, file@, pos),
{
    if str_lt(file, cur_file) {
        proof {
            lemma_seq_char_lt_irreflexive(file@);
        }
        true
    } else if str_lt(cur_file, file) {
        proof {
            lemma_seq_char_lt_irreflexive(file@);
        }
        false
    } else {
        proof {
            lemma_seq_char_lt_total(file@, cur_file@);
        }
        cur_pos >= pos
    }
}

/// The primary self-check: when the server's own current token is a binlog
/// coordinate at or past the target, the durability point is satisfied
/// without a replica wait. Any other current token does not satisfy it.
pub open spec fn current_token_reaches_spec(current: Seq<char>, file: Seq<char>, pos: u64) -> bool {
    if is_prefix(file_prefix(), current) {
        let rest = current.skip(file_prefix().len() as int);
        match last_index_of(rest, ':') {
            Some(i) => match parse_u64_spec(rest.subrange(i + 1, rest.len() as int)) {
                Some(cp) => coordinate_reached_spec(rest.subrange(0, i), cp, file, pos),
                None => false,
            },
            None => false,
        }
    } else {
        false
    }
}

pub fn current_token_reaches(current_value: &str, file: &str, pos: u64) -> (r: bool)
    ensures
        r == current_token_reaches_spec(current_value@, file@, pos),
{
    match strip_prefix(current_value, "file:") {
        None => false,
        Some(cur) => match rsplit_once(cur, ':') {
            None => false,
            Some((cur_file, cur_pos_text)) => match parse_u64(cur_pos_text) {
                Ok(cur_pos) => coordinate_reached(cur_file, cur_pos, file, pos),
                Err(_) => false,
            },
        },
    }
}

/// Result of `WAIT_FOR_EXECUTED_GTID_SET`: `0` means the set was applied;
/// `1` (timeout) and `NULL` (no row, bad set, GTID off) do not.
pub fn gtid_wait_cleared(result: Option<i32>) -> (r: bool)
    ensures
        r == (result == Some(0i32)),
{
    match result {
        Some(v) => v == 0,
        None => false,
    }
}

/// Result of `SOURCE_POS_WAIT` / `MASTER_POS_WAIT`: a row count means the
/// replica reached the coordinate; `NULL` (timeout / not a replica) or no
/// row does not.
pub fn pos_wait_cleared(result: Option<Option<i64>>) -> (r: bool)
    ensures
        r == (result matches Some(Some(_))),
{
    match result {
        Some(Some(_)) => true,
        _ => false,
    }
}

/// Seconds handed to the server-side wait functions: the timeout's whole
/// seconds, at least one.
pub fn wait_timeout_secs(timeout_secs: u64) -> (r: i64)
    ensures
        r == (if timeout_secs == 0 {
            1u64
        } else {
            timeout_secs
        }) as i64,
{
    let s: u64 = if timeout_secs == 0 {
        1
    } else {
        timeout_secs
    };
    s as i64
}

/// The validation half of the MySQL wait: only a MySQL token is accepted,
/// and its value is read into one of the token forms.
pub fn mysql_wait_form(token: &DurabilityToken) -> (r: Result<MysqlTokenForm, String>)
    ensures
        !crate::text::eq_ignore_ascii_case_spec(token.backend_label@, "mysql"@) ==> (r matches Err(
            m,
        ) && m@ == foreign_token_message("MysqlCanonicalStore"@, token.backend_label@)),
        crate::text::eq_ignore_ascii_case_spec(token.backend_label@, "mysql"@) ==> (
        mysql_token_form_spec(token.value@) matches MysqlTokenFormView::FilePos(f, p) ==> (r matches Ok(
            MysqlTokenForm::FilePos { file, pos },
        ) && file@ == f && pos == p)),
        crate::text::eq_ignore_ascii_case_spec(token.backend_label@, "mysql"@) ==> (
        mysql_token_form_spec(token.value@) matches MysqlTokenFormView::Gtid(g) ==> (r matches Ok(
            MysqlTokenForm::Gtid(s),
        ) && s@ == g)),
        crate::text::eq_ignore_ascii_case_spec(token.backend_label@, "mysql"@) ==> (
        mysql_token_form_spec(token.value@) is Other ==> r == Ok::<MysqlTokenForm, String>(
            MysqlTokenForm::Other,
        )),
        crate::text::eq_ignore_ascii_case_spec(token.backend_label@, "mysql"@) ==> (
        mysql_token_form_spec(token.value@) is MissingPosition ==> (r matches Err(m) && m@
            == "malformed mysql file-position token '"@ + token.value@
            + "': expected 'file:<file>:<pos>'"@)),
        crate::text::eq_ignore_ascii_case_spec(token.backend_label@, "mysql"@) ==> (
        mysql_token_form_spec(token.value@) matches MysqlTokenFormView::BadPosition(p) ==> (
        r matches Err(m) && m@.len() >= ("invalid binlog position '"@ + p + "'"@).len()
            && m@.subrange(0, ("invalid binlog position '"@ + p + "'"@).len() as int)
            == "invalid binlog position '"@ + p + "'"@)),
{
    if !token.is_for("mysql") {
        return Err(
            String::from_str("MysqlCanonicalStore").concat(" cannot wait on a '").concat(
                token.backend_label.as_str(),
            ).concat("' token"),
        );
    }
    mysql_token_form(token.value.as_str())
}

/// One decision of the polling fallback for a token of neither form: the
/// wait clears when the server's current token value equals the token's,
/// times out once the timeout has passed, and polls again otherwise.
pub fn poll_fallback_step(current_value: &str, token_value: &str, elapsed_ms: u64, timeout_ms: u64) -> (s:
    WaitStep)
    ensures
        s == if current_value@ == token_value@ {
            WaitStep::Cleared
        } else if elapsed_ms >= timeout_ms {
            WaitStep::TimedOut
        } else {
            WaitStep::Poll
        },
{
    if str_eq(current_value, token_value) {
        WaitStep::Cleared
    } else if elapsed_ms >= timeout_ms {
        WaitStep::TimedOut
    } else {
        WaitStep::Poll
    }
}

// ── Laws ────────────────────────────────────────────────────────────────────

/// A GTID token reads back as the GTID set it was minted from.
pub proof fn lemma_gtid_token_round_trip(gtid: Seq<char>)
    ensures
        mysql_token_form_spec(gtid_prefix() + gtid) == MysqlTokenFormView::Gtid(gtid),
{
    let v = gtid_prefix() + gtid;
    assert(v.subrange(0, gtid_prefix().len() as int) =~= gtid_prefix());
    assert(v.skip(gtid_prefix().len() as int) =~= gtid);
}

/// A binlog-coordinate token reads back as the file and position it was
/// minted from, whatever characters the file name holds.
pub proof fn lemma_file_token_round_trip(file: Seq<char>, pos: u64)
    ensures
        mysql_token_form_spec(file_prefix() + file + seq![':'] + nat_decimal(pos as nat))
            == MysqlTokenFormView::FilePos(file, pos),
{
    reveal_strlit("gtid:");
    reveal_strlit("file:");
    let d = nat_decimal(pos as nat);
    let v = file_prefix() + file + seq![':'] + d;
    assert(!is_prefix(gtid_prefix(), v)) by {
        assert(v[0] == 'f');
        assert(gtid_prefix()[0] == 'g');
        assert(v.subrange(0, gtid_prefix().len() as int)[0] == 'f');
    }
    assert(v.subrange(0, file_prefix().len() as int) =~= file_prefix());
    let rest = v.skip(file_prefix().len() as int);
    assert(rest =~= file + seq![':'] + d);
    assert(int_decimal(pos as int) == d);
    lemma_int_decimal_chars(pos as int, ':');
    lemma_last_index_of(rest, ':');
    lemma_last_index_is(file, d);
    assert(rest.subrange(0, file.len() as int) =~= file);
    assert(rest.subrange(file.len() as int + 1, rest.len() as int) =~= d);
    lemma_parse_u64_of_decimal(pos);
}

proof fn lemma_last_index_is(file: Seq<char>, d: Seq<char>)
    requires
        forall|j: int| 0 <= j < d.len() ==> d[j] != ':',
    ensures
        last_index_of(file + seq![':'] + d, ':') == Some(file.len() as int),
    decreases d.len(),
{
    let s = file + seq![':'] + d;
    if d.len() == 0 {
        assert(s.last() == ':');
    } else {
        assert(s.last() == d.last());
        assert(s.drop_last() =~= file + seq![':'] + d.drop_last());
        lemma_last_index_is(file, d.drop_last());
    }
}

/// A primary that minted a coordinate has reached that coordinate.
pub proof fn lemma_own_coordinate_reached(file: Seq<char>, pos: u64)
    ensures
        coordinate_reached_spec(file, pos, file, pos),
{
}

/// Coordinate order is monotone in the position within one binlog file.
pub proof fn lemma_coordinate_reached_monotone(file: Seq<char>, pos: u64, later: u64, target: u64)
    requires
        coordinate_reached_spec(file, pos, file, target),
        pos <= later,
    ensures
        coordinate_reached_spec(file, later, file, target),
{
}

} // verus!
