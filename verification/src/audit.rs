//! Admin-audit chain bookkeeping around the database round trips: how a
//! chain verification pages through the log and when it stops, and how an
//! append links to the chain head it read.
use vstd::prelude::*;

use crate::sequence::cql_cas_round;
use crate::status::SystemStoreError;
use crate::text::{parse_i64, parse_i64_spec};

verus! {

/// Page size a chain verification uses when none is configured.
pub const DEFAULT_VERIFY_PAGE_SIZE: i64 = 1000;

/// Attempts an append makes at advancing the chain head before giving up.
pub const CHAIN_CAS_MAX_ATTEMPTS: u32 = 64;

/// The configured verification page size: a positive integer setting, else
/// the default.
pub open spec fn verify_page_size_spec(setting: Option<Seq<char>>) -> i64 {
    match setting {
        Some(t) => match parse_i64_spec(t) {
            Some(n) => if n > 0 {
                n
            } else {
                DEFAULT_VERIFY_PAGE_SIZE
            },
            None => DEFAULT_VERIFY_PAGE_SIZE,
        },
        None => DEFAULT_VERIFY_PAGE_SIZE,
    }
}

/// Page size from the operator's setting (the environment's text, if any).
pub fn verify_page_size(setting: Option<&str>) -> (r: i64)
    ensures
        r == verify_page_size_spec(
            match setting {
                Some(t) => Some(t@),
                None => None,
            },
        ),
        r > 0,
{
    match setting {
        Some(t) => match parse_i64(t) {
            Ok(n) => if n > 0 {
                n
            } else {
                DEFAULT_VERIFY_PAGE_SIZE
            },
            Err(_) => DEFAULT_VERIFY_PAGE_SIZE,
        },
        None => DEFAULT_VERIFY_PAGE_SIZE,
    }
}

/// Rows a verification may still check: a positive limit less what was
/// checked (never below zero); no limit, or a non-positive one, is
/// unbounded.
pub open spec fn remaining_spec(limit: Option<i64>, checked: i64) -> i64 {
    match limit {
        Some(n) => if n > 0 {
            if n - checked > 0 {
                (n - checked) as i64
            } else {
                0
            }
        } else {
            i64::MAX
        },
        None => i64::MAX,
    }
}

/// One step of a paged chain verification.
#[derive(Debug, Clone, Copy, PartialEq, Eq, Structural)]
pub enum VerifyStep {
    /// The limit is reached: report what was checked.
    Done,
    /// Read up to `page` rows in chain order from `offset` on.
    Fetch { offset: i64, page: i64 },
}

/// The next step of a verification that has checked `checked` rows and read
/// up to `offset`.
pub open spec fn verify_step_spec(limit: Option<i64>, checked: i64, offset: i64, page_size: i64) -> VerifyStep {
    let remaining = remaining_spec(limit, checked);
    if remaining == 0 {
        VerifyStep::Done
    } else {
        VerifyStep::Fetch {
            offset,
            page: if remaining < page_size {
                remaining
            } else {
                page_size
            },
        }
    }
}

/// Decide the next step of a paged chain verification.
pub fn verify_step(limit: Option<i64>, checked: i64, offset: i64, page_size: i64) -> (r: VerifyStep)
    requires
        checked >= 0,
    ensures
        r == verify_step_spec(limit, checked, offset, page_size),
{
    let remaining: i64 = match limit {
        Some(n) => if n > 0 {
            if n - checked > 0 {
                n - checked
            } else {
                0
            }
        } else {
            i64::MAX
        },
        None => i64::MAX,
    };
    if remaining == 0 {
        VerifyStep::Done
    } else {
        VerifyStep::Fetch {
            offset,
            page: if remaining < page_size {
                remaining
            } else {
                page_size
            },
        }
    }
}

/// After a page of `n_rows` rows was checked without tamper: whether the
/// scan goes on (a full page) or has reached the end of the log.
pub fn verify_continues(n_rows: i64, page: i64) -> (r: bool)
    ensures
        r == (n_rows > 0 && n_rows >= page),
{
    n_rows > 0 && n_rows >= page
}

/// Single-read verification (the whole chain in one partition read): row
/// number `checked` is still within the limit.
pub fn within_verify_limit(limit: Option<i64>, checked: i64) -> (r: bool)
    ensures
        r == match limit {
            Some(n) => n <= 0 || checked < n,
            None => true,
        },
{
    match limit {
        Some(n) => n <= 0 || checked < n,
        None => true,
    }
}

/// How an append links to the chain head it read.
#[derive(Debug, Clone, Copy, PartialEq, Eq, Structural)]
pub enum HeadWrite {
    /// No head yet: create it, only if it still does not exist.
    Seed,
    /// Advance the head, only if it still holds the hash that was read.
    Advance,
}

/// The write an append makes on the chain head it read (`None`: no head
/// row).
pub fn head_write(head: Option<&str>) -> (r: HeadWrite)
    ensures
        r == head_write_spec(opt_view(head)),
{
    match head {
        Some(_) => HeadWrite::Advance,
        None => HeadWrite::Seed,
    }
}

/// The previous hash an appended entry links to: the head's hash, or the
/// empty string on a fresh chain.
pub fn previous_hash_of(head: Option<&str>) -> (r: String)
    ensures
        r@ == previous_hash_spec(opt_view(head)),
{
    match head {
        Some(h) => String::from_str(h),
        None => String::new(),
    }
}

// ── Paged verification ──────────────────────────────────────────────────────

/// What checking one row of the chain against the hash before it gave.
/// `R` is the report the row check hands out when the row breaks the chain.
pub enum RowCheck<R> {
    /// The row decoded and links to the hash before it; its own hash.
    Linked(String),
    /// The row decoded but breaks the chain.
    Tampered(R),
    /// The row could not be decoded; the decoder's message.
    Undecodable(String),
}

pub enum RowCheckView<R> {
    Linked(Seq<char>),
    Tampered(R),
    Undecodable(Seq<char>),
}

impl<R> View for RowCheck<R> {
    type V = RowCheckView<R>;

    open spec fn view(&self) -> RowCheckView<R> {
        match self {
            RowCheck::Linked(h) => RowCheckView::Linked(h@),
            RowCheck::Tampered(r) => RowCheckView::Tampered(*r),
            RowCheck::Undecodable(m) => RowCheckView::Undecodable(m@),
        }
    }
}

/// Where a paged verification stands: rows checked, rows read, and the hash
/// the next row must link to.
pub struct ChainScan {
    pub checked: i64,
    pub offset: i64,
    pub last_hash: String,
}

impl ChainScan {
    /// A verification that has read nothing yet; the first row links to the
    /// empty hash.
    pub fn start() -> (s: ChainScan)
        ensures
            s.checked == 0,
            s.offset == 0,
            s.last_hash@ == Seq::<char>::empty(),
    {
        ChainScan { checked: 0, offset: 0, last_hash: String::new() }
    }
}

/// What a page of the chain leaves the verification with.
pub enum PageVerdict<R> {
    /// The page was full and intact: read the next one from here.
    NextPage(ChainScan),
    /// The log ended intact.
    Passed { checked: i64, last_hash: String },
    /// A row broke the chain: the row check's report.
    Tampered(R),
    /// A row could not be decoded.
    DecodeError(String),
}

pub enum ScanView<R> {
    NextPage { checked: int, offset: int, last_hash: Seq<char> },
    Passed { checked: int, last_hash: Seq<char> },
    Tampered(R),
    DecodeError(Seq<char>),
}

impl<R> View for PageVerdict<R> {
    type V = ScanView<R>;

    open spec fn view(&self) -> ScanView<R> {
        match self {
            PageVerdict::NextPage(s) => ScanView::NextPage {
                checked: s.checked as int,
                offset: s.offset as int,
                last_hash: s.last_hash@,
            },
            PageVerdict::Passed { checked, last_hash } => ScanView::Passed {
                checked: *checked as int,
                last_hash: last_hash@,
            },
            PageVerdict::Tampered(r) => ScanView::Tampered(*r),
            PageVerdict::DecodeError(m) => ScanView::DecodeError(m@),
        }
    }
}

/// The checks of a page, each by its view.
pub open spec fn check_views<R>(checks: Seq<RowCheck<R>>) -> Seq<RowCheckView<R>> {
    checks.map_values(|c: RowCheck<R>| c@)
}

pub enum RowsView<R> {
    AllLinked { checked: int, last_hash: Seq<char> },
    Stopped(ScanView<R>),
}

/// The rows of a page in chain order: each linked row counts and moves the
/// hash on; the first row that does not link decides the verification.
pub open spec fn rows_spec<R>(checked: int, last_hash: Seq<char>, checks: Seq<RowCheckView<R>>) -> RowsView<R>
    decreases checks.len(),
{
    if checks.len() == 0 {
        RowsView::AllLinked { checked, last_hash }
    } else {
        match checks[0] {
            RowCheckView::Linked(h) => rows_spec(checked + 1, h, checks.drop_first()),
            RowCheckView::Tampered(r) => RowsView::Stopped(ScanView::Tampered(r)),
            RowCheckView::Undecodable(m) => RowsView::Stopped(ScanView::DecodeError(m)),
        }
    }
}

/// A page read from `offset` asking for `page` rows: an empty page ends the
/// log; a page that does not link stops at its first such row; an intact
/// page moves the offset past its rows and ends the log when it is short.
pub open spec fn page_verdict_spec<R>(
    checked: int,
    offset: int,
    last_hash: Seq<char>,
    page: int,
    checks: Seq<RowCheckView<R>>,
) -> ScanView<R> {
    if checks.len() == 0 {
        ScanView::Passed { checked, last_hash }
    } else {
        match rows_spec(checked, last_hash, checks) {
            RowsView::Stopped(v) => v,
            RowsView::AllLinked { checked: c, last_hash: h } => if checks.len() < page {
                ScanView::Passed { checked: c, last_hash: h }
            } else {
                ScanView::NextPage { checked: c, offset: offset + checks.len(), last_hash: h }
            },
        }
    }
}

proof fn lemma_rows_spec_step<R>(checked: int, last_hash: Seq<char>, checks: Seq<RowCheckView<R>>, i: int, h: Seq<char>)
    requires
        0 <= i < checks.len(),
        checks[i] == RowCheckView::<R>::Linked(h),
    ensures
        rows_spec(checked, last_hash, checks.skip(i)) == rows_spec(checked + 1, h, checks.skip(i + 1)),
{
    assert(checks.skip(i).drop_first() =~= checks.skip(i + 1));
}

/// Decide what a page of `checks` (the rows read, in chain order, each
/// checked against the hash before it) leaves a verification with.
pub fn verify_page<R>(scan: ChainScan, page: i64, checks: Vec<RowCheck<R>>) -> (r: PageVerdict<R>)
    requires
        0 <= scan.checked,
        0 <= scan.offset,
        scan.checked + checks.len() <= i64::MAX,
        scan.offset + checks.len() <= i64::MAX,
    ensures
        r@ == page_verdict_spec(
            scan.checked as int,
            scan.offset as int,
            scan.last_hash@,
            page as int,
            check_views(checks@),
        ),
{
    let ghost views = check_views(checks@);
    let n: usize = checks.len();
    if n == 0 {
        return PageVerdict::Passed { checked: scan.checked, last_hash: scan.last_hash };
    }
    let mut rows = checks;
    let mut checked: i64 = scan.checked;
    let mut last_hash: String = scan.last_hash;
    let mut i: usize = 0;
    assert(views.skip(0) =~= views);
    while i < n
        invariant
            n == rows.len(),
            rows@ == checks@,
            views == check_views(checks@),
            0 <= i <= n,
            checked == scan.checked + i,
            0 <= scan.checked,
            0 <= scan.offset,
            scan.checked + n <= i64::MAX,
            scan.offset + n <= i64::MAX,
            views.len() == n,
            rows_spec(scan.checked as int, scan.last_hash@, views) == rows_spec(
                checked as int,
                last_hash@,
                views.skip(i as int),
            ),
        decreases n - i,
    {
        let linked: Option<String> = match &rows[i] {
            RowCheck::Linked(h) => Some(h.clone()),
            _ => None,
        };
        match linked {
            Some(h) => {
                proof {
                    lemma_rows_spec_step(checked as int, last_hash@, views, i as int, h@);
                }
                checked = checked + 1;
                last_hash = h;
                i = i + 1;
            },
            None => {
                assert(views[i as int] == checks@[i as int]@);
                assert(views.skip(i as int)[0] == views[i as int]);
                let stop = rows.remove(i);
                return match stop {
                    RowCheck::Tampered(r) => PageVerdict::Tampered(r),
                    RowCheck::Undecodable(m) => PageVerdict::DecodeError(m),
                    // not reached: the row at `i` does not link
                    RowCheck::Linked(h) => PageVerdict::Passed { checked, last_hash: h },
                };
            },
        }
    }
    assert(views.skip(n as int).len() == 0);
    let n_rows: i64 = n as i64;
    if n_rows < page {
        PageVerdict::Passed { checked, last_hash }
    } else {
        PageVerdict::NextPage(ChainScan { checked, offset: scan.offset + n_rows, last_hash })
    }
}

// ── Chain-head compare-and-set ──────────────────────────────────────────────

/// The write an append makes on a head read (`None`: no head row).
pub open spec fn head_write_spec(head: Option<Seq<char>>) -> HeadWrite {
    if head is Some {
        HeadWrite::Advance
    } else {
        HeadWrite::Seed
    }
}

/// The hash an appended entry links to: the head's, or the empty string on
/// a fresh chain.
pub open spec fn previous_hash_spec(head: Option<Seq<char>>) -> Seq<char> {
    match head {
        Some(h) => h,
        None => Seq::<char>::empty(),
    }
}

pub open spec fn opt_view(head: Option<&str>) -> Option<Seq<char>> {
    match head {
        Some(h) => Some(h@),
        None => None,
    }
}

/// One round of an append's chain-head loop: the conditional write to make
/// and the hash the entry links to.
pub struct HeadRound {
    pub write: HeadWrite,
    pub previous_hash: String,
}

/// Round `attempt` (counted from 1) of the chain-head loop, from the head it
/// read: past the cap, the convergence error; else the write and the hash
/// the entry links to.
pub fn chain_head_round(attempt: u32, head: Option<&str>) -> (r: Result<HeadRound, SystemStoreError>)
    ensures
        r is Ok <==> attempt <= CHAIN_CAS_MAX_ATTEMPTS,
        r matches Ok(h) ==> h.write == head_write_spec(opt_view(head)) && h.previous_hash@
            == previous_hash_spec(opt_view(head)),
        r matches Err(e) ==> e matches SystemStoreError::Io { backend: b, source } && b@
            == "cassandra"@ && source@ == "append_admin_audit: chain-head CAS did not converge"@,
{
    match cql_cas_round(attempt, CHAIN_CAS_MAX_ATTEMPTS, "append_admin_audit", "chain-head") {
        Err(e) => {
            proof {
                reveal_strlit("append_admin_audit");
                reveal_strlit("chain-head");
                reveal_strlit(": ");
                reveal_strlit(" CAS did not converge");
                reveal_strlit("append_admin_audit: chain-head CAS did not converge");
                assert("append_admin_audit"@ + ": "@ + "chain-head"@ + " CAS did not converge"@
                    =~= "append_admin_audit: chain-head CAS did not converge"@);
            }
            Err(e)
        },
        Ok(()) => Ok(HeadRound { write: head_write(head), previous_hash: previous_hash_of(head) }),
    }
}

/// The link an append settles on when its round's write applied: the hash
/// it read and the entry's own; `None` when another append won the round
/// and the head must be read again.
pub fn chain_head_outcome(round: HeadRound, current_hash: String, applied: bool) -> (r: Option<
    (String, String),
>)
    ensures
        applied <==> r is Some,
        r matches Some(l) ==> l.0@ == round.previous_hash@ && l.1@ == current_hash@,
{
    if applied {
        Some((round.previous_hash, current_hash))
    } else {
        None
    }
}

// ── CQL chain head ──────────────────────────────────────────────────────────

/// Read of the chain head's hash.
pub fn cql_head_select(chain_table: &str) -> (r: String)
    ensures
        r@ == "SELECT head_hash FROM "@ + chain_table@ + " WHERE id = ?"@,
{
    String::from_str("SELECT head_hash FROM ").concat(chain_table).concat(" WHERE id = ?")
}

pub open spec fn cql_head_write_spec(w: HeadWrite, chain_table: Seq<char>) -> Seq<char> {
    match w {
        HeadWrite::Seed => "INSERT INTO "@ + chain_table
            + " (id, head_hash) VALUES (?, ?) IF NOT EXISTS"@,
        HeadWrite::Advance => "UPDATE "@ + chain_table
            + " SET head_hash = ? WHERE id = ? IF head_hash = ?"@,
    }
}

/// The conditional write of the chain head: seed it only while it does not
/// exist, or advance it only while it still holds the hash that was read.
pub fn cql_head_write(w: HeadWrite, chain_table: &str) -> (r: String)
    ensures
        r@ == cql_head_write_spec(w, chain_table@),
{
    match w {
        HeadWrite::Seed => String::from_str("INSERT INTO ").concat(chain_table).concat(
            " (id, head_hash) VALUES (?, ?) IF NOT EXISTS",
        ),
        HeadWrite::Advance => String::from_str("UPDATE ").concat(chain_table).concat(
            " SET head_hash = ? WHERE id = ? IF head_hash = ?",
        ),
    }
}

/// The plain insert of an audit row once the head write has linked it.
pub fn cql_audit_insert(audit_table: &str) -> (r: String)
    ensures
        r@ == "INSERT INTO "@ + audit_table@
            + " ( chain, created_at, audit_id, actor, operation, target, request_json, result, tenant_id, project_id, correlation_id, previous_hash, current_hash, signer_key_id, external_anchor ) VALUES (?, ?, ?, ?, ?, ?, ?, ?, ?, ?, ?, ?, ?, ?, ?)"@,
{
    String::from_str("INSERT INTO ").concat(audit_table).concat(
        " ( chain, created_at, audit_id, actor, operation, target, request_json, result, tenant_id, project_id, correlation_id, previous_hash, current_hash, signer_key_id, external_anchor ) VALUES (?, ?, ?, ?, ?, ?, ?, ?, ?, ?, ?, ?, ?, ?, ?)",
    )
}

// ── Laws ────────────────────────────────────────────────────────────────────

/// A verification with a positive limit never asks for rows past it: the
/// rows checked so far plus the next page stay within the limit.
pub proof fn lemma_verify_respects_limit(limit: i64, checked: i64, offset: i64, page_size: i64)
    requires
        limit > 0,
        0 <= checked,
    ensures
        verify_step_spec(Some(limit), checked, offset, page_size) matches VerifyStep::Fetch {
            page,
            ..
        } ==> checked + page <= limit,
        checked >= limit ==> verify_step_spec(Some(limit), checked, offset, page_size)
            == VerifyStep::Done,
{
}

/// Every page a verification asks for is non-empty, so each full page
/// moves the scan forward.
pub proof fn lemma_verify_pages_are_positive(
    limit: Option<i64>,
    checked: i64,
    offset: i64,
    page_size: i64,
)
    requires
        0 <= checked,
        page_size > 0,
    ensures
        verify_step_spec(limit, checked, offset, page_size) matches VerifyStep::Fetch { page, .. }
            ==> page > 0,
{
}

/// Without a positive limit a verification runs to the end of the log: it
/// always asks for a full page.
pub proof fn lemma_unbounded_verify_reads_full_pages(
    limit: Option<i64>,
    checked: i64,
    offset: i64,
    page_size: i64,
)
    requires
        match limit {
            Some(n) => n <= 0,
            None => true,
        },
        page_size > 0,
    ensures
        verify_step_spec(limit, checked, offset, page_size) == (VerifyStep::Fetch {
            offset,
            page: page_size,
        }),
{
}

/// Rows a page read returns when `available` rows remain past its offset.
pub open spec fn rows_read(available: int, page: int) -> int {
    if available < page {
        available
    } else {
        page
    }
}

/// The checks of rows that all link, one per hash.
pub open spec fn linked_views<R>(hashes: Seq<Seq<char>>) -> Seq<RowCheckView<R>> {
    hashes.map_values(|h: Seq<char>| RowCheckView::<R>::Linked(h))
}

/// A paged verification of an intact log whose rows hash to `hashes`, from
/// a scan that has checked `checked` rows, read up to `offset` and links to
/// `last_hash`: each step asks `verify_step` for the next page, reads what
/// the log has there, and goes on while `verify_page` asks for a next page.
pub open spec fn chain_scan_spec<R>(
    hashes: Seq<Seq<char>>,
    limit: Option<i64>,
    page_size: i64,
    checked: int,
    offset: int,
    last_hash: Seq<char>,
) -> ScanView<R>
    decreases hashes.len() - offset,
{
    if checked < 0 || offset < 0 || offset > hashes.len() || hashes.len() >= i64::MAX
        || page_size <= 0 {
        ScanView::Passed { checked, last_hash }
    } else {
        match verify_step_spec(limit, checked as i64, offset as i64, page_size) {
            VerifyStep::Done => ScanView::Passed { checked, last_hash },
            VerifyStep::Fetch { offset: _, page } => {
                let n = rows_read(hashes.len() - offset, page as int);
                let v = page_verdict_spec(
                    checked,
                    offset,
                    last_hash,
                    page as int,
                    linked_views::<R>(hashes.subrange(offset, offset + n)),
                );
                match v {
                    ScanView::NextPage { checked: c, offset: o, last_hash: h } => if offset < o <= hashes.len() {
                        chain_scan_spec(hashes, limit, page_size, c, o, h)
                    } else {
                        v
                    },
                    _ => v,
                }
            },
        }
    }
}

/// The hash of the last of the first `count` rows; the empty hash when
/// there is none.
pub open spec fn hash_after(hashes: Seq<Seq<char>>, count: int) -> Seq<char> {
    if count <= 0 {
        Seq::<char>::empty()
    } else {
        hashes[count - 1]
    }
}

/// Rows a verification of an intact log of `total` rows reports checked:
/// the limit when a positive one is below the length, else the length.
pub open spec fn expected_checked(total: int, limit: Option<i64>) -> int {
    match limit {
        Some(n) => if n > 0 && n < total {
            n as int
        } else {
            total
        },
        None => total,
    }
}

/// The page size does not change a verification's outcome: on an intact
/// log every positive page size passes with exactly the limit's worth of
/// rows checked (all of them without a positive limit) and the hash of the
/// last row checked, so the report is the same for any two page sizes.
pub proof fn lemma_verify_independent_of_page_size<R>(
    hashes: Seq<Seq<char>>,
    limit: Option<i64>,
    page_size: i64,
)
    requires
        hashes.len() < i64::MAX,
        page_size > 0,
    ensures
        chain_scan_spec::<R>(hashes, limit, page_size, 0, 0, Seq::<char>::empty())
            == (ScanView::<R>::Passed {
            checked: expected_checked(hashes.len() as int, limit),
            last_hash: hash_after(hashes, expected_checked(hashes.len() as int, limit)),
        }),
{
    lemma_chain_scan_from::<R>(hashes, limit, page_size, 0);
}

proof fn lemma_rows_all_linked<R>(checked: int, last_hash: Seq<char>, s: Seq<Seq<char>>)
    ensures
        rows_spec(checked, last_hash, linked_views::<R>(s)) == (RowsView::<R>::AllLinked {
            checked: checked + s.len(),
            last_hash: if s.len() == 0 {
                last_hash
            } else {
                s.last()
            },
        }),
    decreases s.len(),
{
    if s.len() > 0 {
        assert(linked_views::<R>(s).drop_first() =~= linked_views::<R>(s.drop_first()));
        lemma_rows_all_linked::<R>(checked + 1, s[0], s.drop_first());
    }
}

proof fn lemma_chain_scan_from<R>(hashes: Seq<Seq<char>>, limit: Option<i64>, page_size: i64, c: int)
    requires
        hashes.len() < i64::MAX,
        page_size > 0,
        0 <= c <= expected_checked(hashes.len() as int, limit),
    ensures
        chain_scan_spec::<R>(hashes, limit, page_size, c, c, hash_after(hashes, c)) == (ScanView::<
            R,
        >::Passed {
            checked: expected_checked(hashes.len() as int, limit),
            last_hash: hash_after(hashes, expected_checked(hashes.len() as int, limit)),
        }),
    decreases hashes.len() - c,
{
    let total = hashes.len() as int;
    match verify_step_spec(limit, c as i64, c as i64, page_size) {
        VerifyStep::Done => {},
        VerifyStep::Fetch { offset: _, page } => {
            let n = rows_read(total - c, page as int);
            let sub = hashes.subrange(c, c + n);
            lemma_rows_all_linked::<R>(c, hash_after(hashes, c), sub);
            if n > 0 {
                assert(sub.last() == hashes[c + n - 1]);
            }
            if n > 0 && n >= page {
                lemma_chain_scan_from::<R>(hashes, limit, page_size, c + n);
            }
        },
    }
}

/// An append's chain-head loop, from round `k` on: round `k` (attempt
/// `k + 1`) reads the head, links the entry to it and tries its write; the
/// first round whose write applies settles the link (the hash it read, the
/// entry's own hash), and after the last allowed attempt the loop gives up
/// (`None`, the convergence error). `rounds[k]` is what round `k` read, the
/// entry hash it computed, and whether its write applied.
pub open spec fn head_loop_spec(rounds: Seq<(Option<Seq<char>>, Seq<char>, bool)>, k: nat) -> Option<
    (Seq<char>, Seq<char>),
>
    decreases CHAIN_CAS_MAX_ATTEMPTS - k,
{
    if k >= CHAIN_CAS_MAX_ATTEMPTS || k >= rounds.len() {
        None
    } else if rounds[k as int].2 {
        Some((previous_hash_spec(rounds[k as int].0), rounds[k as int].1))
    } else {
        head_loop_spec(rounds, k + 1)
    }
}

/// An append links its entry to the head its winning round read (the empty
/// hash on a fresh chain, where that round seeded the head), after every
/// earlier round lost; it gives up exactly when all the allowed rounds
/// lost.
pub proof fn lemma_append_links_to_head_read(rounds: Seq<(Option<Seq<char>>, Seq<char>, bool)>, k: nat)
    requires
        rounds.len() >= CHAIN_CAS_MAX_ATTEMPTS,
    ensures
        head_loop_spec(rounds, k) is None <==> forall|i: int|
            k <= i < CHAIN_CAS_MAX_ATTEMPTS ==> !(#[trigger] rounds[i]).2,
        head_loop_spec(rounds, k) matches Some(l) ==> exists|j: int|
            k <= j < CHAIN_CAS_MAX_ATTEMPTS && (#[trigger] rounds[j]).2 && l.0 == previous_hash_spec(
                rounds[j].0,
            ) && l.1 == rounds[j].1 && (rounds[j].0 is None ==> head_write_spec(rounds[j].0)
                == HeadWrite::Seed && l.0 == Seq::<char>::empty()) && forall|i: int|
                k <= i < j ==> !(#[trigger] rounds[i]).2,
    decreases CHAIN_CAS_MAX_ATTEMPTS - k,
{
    if k < CHAIN_CAS_MAX_ATTEMPTS {
        if rounds[k as int].2 {
            assert(k <= k as int && rounds[k as int].2);
        } else {
            lemma_append_links_to_head_read(rounds, k + 1);
            if let Some(l) = head_loop_spec(rounds, k) {
                let j = choose|j: int|
                    k + 1 <= j < CHAIN_CAS_MAX_ATTEMPTS && (#[trigger] rounds[j]).2 && l.0
                        == previous_hash_spec(rounds[j].0) && l.1 == rounds[j].1 && (rounds[j].0 is None
                        ==> head_write_spec(rounds[j].0) == HeadWrite::Seed && l.0 == Seq::<
                        char,
                    >::empty()) && forall|i: int|
                        k + 1 <= i < j ==> !(#[trigger] rounds[i]).2;
                assert forall|i: int| k <= i < j implies !(#[trigger] rounds[i]).2 by {}
            }
        }
    }
}

} // verus!
