//! Listings the scan-based stores answer in memory: the rows matching every
//! present equality filter, newest first (ties in scan order), cut to the
//! requested page with the usual limit/offset defaults.
use vstd::prelude::*;

use crate::projection::filter_admits;
use crate::selection::{is_newest_first_selection, lemma_selection_unique, newest_first_selection};
use crate::status::SagaStatus;
use crate::text::str_eq;

verus! {

// ── Paging ──────────────────────────────────────────────────────────────────

/// The rows a page keeps of an ordered listing: skip `offset` (a negative
/// offset is 0), then take `limit` (a non-positive limit is 100).
pub open spec fn page_window(all: Seq<usize>, limit: i64, offset: i64) -> Seq<usize> {
    let l: int = if limit <= 0 {
        100
    } else {
        limit as int
    };
    let o: int = if offset < 0 {
        0
    } else {
        offset as int
    };
    if o >= all.len() {
        Seq::empty()
    } else if o + l < all.len() {
        all.subrange(o, o + l)
    } else {
        all.subrange(o, all.len() as int)
    }
}

/// The page of `all` a listing returns.
pub fn page_of(all: &Vec<usize>, limit: i64, offset: i64) -> (r: Vec<usize>)
    ensures
        r@ == page_window(all@, limit, offset),
{
    let l: u64 = if limit <= 0 {
        100
    } else {
        limit as u64
    };
    let o: u64 = if offset < 0 {
        0
    } else {
        offset as u64
    };
    let n = all.len();
    let mut out: Vec<usize> = Vec::new();
    if (o as u128) >= (n as u128) {
        return out;
    }
    let start = o as usize;
    let end: usize = if (o as u128) + (l as u128) < (n as u128) {
        (o + l) as usize
    } else {
        n
    };
    let mut i = start;
    while i < end
        invariant
            start <= i <= end <= n,
            n == all@.len(),
            out@ == all@.subrange(start as int, i as int),
        decreases end - i,
    {
        out.push(all[i]);
        assert(all@.subrange(start as int, i + 1) =~= all@.subrange(start as int, i as int).push(
            all@[i as int],
        ));
        i = i + 1;
    }
    out
}

/// The newest-first listing of the eligible rows, paged.
pub fn newest_first_page(keys: &Vec<i64>, eligible: &Vec<bool>, limit: i64, offset: i64) -> (r: Vec<
    usize,
>)
    requires
        keys@.len() == eligible@.len(),
    ensures
        forall|all: Seq<usize>|
            #[trigger] is_newest_first_selection(keys@, eligible@, all) ==> r@ == page_window(
                all,
                limit,
                offset,
            ),
        exists|all: Seq<usize>|
            #[trigger] is_newest_first_selection(keys@, eligible@, all) && r@ == page_window(
                all,
                limit,
                offset,
            ),
{
    let n = keys.len();
    let all = newest_first_selection(keys, eligible);
    let r = page_of(&all, limit, offset);
    assert(keys@.len() == n);
    proof {
        assert forall|other: Seq<usize>| #[trigger]
            is_newest_first_selection(keys@, eligible@, other) implies r@ == page_window(
            other,
            limit,
            offset,
        ) by {
            lemma_selection_unique(keys@, eligible@, all@, other, true);
        }
        assert(is_newest_first_selection(keys@, eligible@, all@));
    }
    r
}

fn admits(f: &Option<String>, v: &str) -> (r: bool)
    ensures
        r == filter_admits(*f, v@),
{
    match f {
        Some(x) => str_eq(x.as_str(), v),
        None => true,
    }
}

// ── Sagas ───────────────────────────────────────────────────────────────────

/// A saga listing request.
pub struct SagaListFilter {
    pub tenant_id: Option<String>,
    pub status: Option<SagaStatus>,
    pub tx_id: Option<String>,
    pub correlation_id: Option<String>,
    pub limit: i64,
    pub offset: i64,
}

/// The fields of a saga row a listing reads.
pub struct SagaListRow {
    pub tenant_id: String,
    pub status: SagaStatus,
    pub tx_id: String,
    pub correlation_id: String,
    pub updated_at_ms: i64,
}

pub open spec fn saga_listed(r: SagaListRow, f: SagaListFilter) -> bool {
    &&& filter_admits(f.tenant_id, r.tenant_id@)
    &&& (f.status matches Some(s) ==> r.status == s)
    &&& filter_admits(f.tx_id, r.tx_id@)
    &&& filter_admits(f.correlation_id, r.correlation_id@)
}

pub open spec fn saga_list_keys(rows: Seq<SagaListRow>) -> Seq<i64> {
    rows.map_values(|r: SagaListRow| r.updated_at_ms)
}

pub open spec fn saga_list_flags(rows: Seq<SagaListRow>, f: SagaListFilter) -> Seq<bool> {
    rows.map_values(|r: SagaListRow| saga_listed(r, f))
}

/// The sagas a listing returns: those matching every present filter, most
/// recently updated first, paged.
pub fn list_sagas_page(rows: &Vec<SagaListRow>, filter: &SagaListFilter) -> (r: Vec<usize>)
    ensures
        forall|all: Seq<usize>|
            #[trigger] is_newest_first_selection(
                saga_list_keys(rows@),
                saga_list_flags(rows@, *filter),
                all,
            ) ==> r@ == page_window(all, filter.limit, filter.offset),
        exists|all: Seq<usize>|
            #[trigger] is_newest_first_selection(
                saga_list_keys(rows@),
                saga_list_flags(rows@, *filter),
                all,
            ) && r@ == page_window(all, filter.limit, filter.offset),
        forall|k: int|
            0 <= k < r@.len() ==> (#[trigger] r@[k] as int) < rows@.len() && ({
                let row = rows@[r@[k] as int];
                &&& (filter.tenant_id is Some ==> row.tenant_id@ == filter.tenant_id->0@)
                &&& (filter.status is Some ==> row.status == filter.status->0)
                &&& (filter.tx_id is Some ==> row.tx_id@ == filter.tx_id->0@)
                &&& (filter.correlation_id is Some ==> row.correlation_id@ == filter.correlation_id->0@)
            }),
{
    let n = rows.len();
    let mut keys: Vec<i64> = Vec::new();
    let mut flags: Vec<bool> = Vec::new();
    let mut i: usize = 0;
    while i < n
        invariant
            n == rows@.len(),
            i <= n,
            keys@ == saga_list_keys(rows@).take(i as int),
            flags@ == saga_list_flags(rows@, *filter).take(i as int),
        decreases n - i,
    {
        let row = &rows[i];
        let status_ok = match filter.status {
            Some(s) => row.status == s,
            None => true,
        };
        let listed = admits(&filter.tenant_id, row.tenant_id.as_str()) && status_ok && admits(
            &filter.tx_id,
            row.tx_id.as_str(),
        ) && admits(&filter.correlation_id, row.correlation_id.as_str());
        keys.push(row.updated_at_ms);
        flags.push(listed);
        assert(keys@ =~= saga_list_keys(rows@).take(i + 1));
        assert(flags@ =~= saga_list_flags(rows@, *filter).take(i + 1));
        i = i + 1;
    }
    assert(keys@ =~= saga_list_keys(rows@));
    assert(flags@ =~= saga_list_flags(rows@, *filter));
    let r = newest_first_page(&keys, &flags, filter.limit, filter.offset);
    proof {
        let all = choose|all: Seq<usize>|
            #[trigger] is_newest_first_selection(keys@, flags@, all) && r@ == page_window(
                all,
                filter.limit,
                filter.offset,
            );
        lemma_saga_listing_respects_filters(rows@, *filter, all);
    }
    r
}

// ── Admin audit ─────────────────────────────────────────────────────────────

/// An admin-audit listing request. `redact_request_json` asks for the
/// request bodies of the returned rows to be replaced by a redaction marker.
pub struct AdminAuditListFilter {
    pub operation: Option<String>,
    pub actor: Option<String>,
    pub tenant_id: Option<String>,
    pub project_id: Option<String>,
    pub limit: i64,
    pub offset: i64,
    pub redact_request_json: bool,
}

/// The fields of an admin-audit row a listing reads.
pub struct AuditListRow {
    pub operation: String,
    pub actor: String,
    pub tenant_id: String,
    pub project_id: String,
    pub created_at_ms: i64,
}

pub open spec fn audit_listed(r: AuditListRow, f: AdminAuditListFilter) -> bool {
    &&& filter_admits(f.operation, r.operation@)
    &&& filter_admits(f.actor, r.actor@)
    &&& filter_admits(f.tenant_id, r.tenant_id@)
    &&& filter_admits(f.project_id, r.project_id@)
}

pub open spec fn audit_list_keys(rows: Seq<AuditListRow>) -> Seq<i64> {
    rows.map_values(|r: AuditListRow| r.created_at_ms)
}

pub open spec fn audit_list_flags(rows: Seq<AuditListRow>, f: AdminAuditListFilter) -> Seq<bool> {
    rows.map_values(|r: AuditListRow| audit_listed(r, f))
}

/// The admin-audit entries a listing returns: those matching every present
/// filter, newest first, paged.
pub fn list_admin_audit_page(rows: &Vec<AuditListRow>, filter: &AdminAuditListFilter) -> (r: Vec<
    usize,
>)
    ensures
        forall|all: Seq<usize>|
            #[trigger] is_newest_first_selection(
                audit_list_keys(rows@),
                audit_list_flags(rows@, *filter),
                all,
            ) ==> r@ == page_window(all, filter.limit, filter.offset),
        exists|all: Seq<usize>|
            #[trigger] is_newest_first_selection(
                audit_list_keys(rows@),
                audit_list_flags(rows@, *filter),
                all,
            ) && r@ == page_window(all, filter.limit, filter.offset),
        forall|k: int|
            0 <= k < r@.len() ==> (#[trigger] r@[k] as int) < rows@.len() && ({
                let row = rows@[r@[k] as int];
                &&& (filter.operation is Some ==> row.operation@ == filter.operation->0@)
                &&& (filter.actor is Some ==> row.actor@ == filter.actor->0@)
                &&& (filter.tenant_id is Some ==> row.tenant_id@ == filter.tenant_id->0@)
                &&& (filter.project_id is Some ==> row.project_id@ == filter.project_id->0@)
            }),
{
    let n = rows.len();
    let mut keys: Vec<i64> = Vec::new();
    let mut flags: Vec<bool> = Vec::new();
    let mut i: usize = 0;
    while i < n
        invariant
            n == rows@.len(),
            i <= n,
            keys@ == audit_list_keys(rows@).take(i as int),
            flags@ == audit_list_flags(rows@, *filter).take(i as int),
        decreases n - i,
    {
        let row = &rows[i];
        let listed = admits(&filter.operation, row.operation.as_str()) && admits(
            &filter.actor,
            row.actor.as_str(),
        ) && admits(&filter.tenant_id, row.tenant_id.as_str()) && admits(
            &filter.project_id,
            row.project_id.as_str(),
        );
        keys.push(row.created_at_ms);
        flags.push(listed);
        assert(keys@ =~= audit_list_keys(rows@).take(i + 1));
        assert(flags@ =~= audit_list_flags(rows@, *filter).take(i + 1));
        i = i + 1;
    }
    assert(keys@ =~= audit_list_keys(rows@));
    assert(flags@ =~= audit_list_flags(rows@, *filter));
    let r = newest_first_page(&keys, &flags, filter.limit, filter.offset);
    proof {
        let all = choose|all: Seq<usize>|
            #[trigger] is_newest_first_selection(keys@, flags@, all) && r@ == page_window(
                all,
                filter.limit,
                filter.offset,
            );
        lemma_audit_listing_respects_filters(rows@, *filter, all);
    }
    r
}

// ── Migration runs ──────────────────────────────────────────────────────────

/// A migration-run listing request; `state` is the run state's text.
pub struct MigrationRunsFilter {
    pub project_id: Option<String>,
    pub state: Option<String>,
    pub catalog_version: Option<String>,
    pub limit: i64,
    pub offset: i64,
}

/// The fields of a migration-run row a listing reads.
pub struct MigrationRunListRow {
    pub project_id: String,
    pub state: String,
    pub catalog_version: String,
    pub started_at_ms: i64,
}

pub open spec fn run_listed(r: MigrationRunListRow, f: MigrationRunsFilter) -> bool {
    &&& filter_admits(f.project_id, r.project_id@)
    &&& filter_admits(f.state, r.state@)
    &&& filter_admits(f.catalog_version, r.catalog_version@)
}

pub open spec fn run_list_keys(rows: Seq<MigrationRunListRow>) -> Seq<i64> {
    rows.map_values(|r: MigrationRunListRow| r.started_at_ms)
}

pub open spec fn run_list_flags(rows: Seq<MigrationRunListRow>, f: MigrationRunsFilter) -> Seq<bool> {
    rows.map_values(|r: MigrationRunListRow| run_listed(r, f))
}

/// The migration runs a listing returns: those matching every present
/// filter, most recently started first, paged.
pub fn list_migration_runs_page(rows: &Vec<MigrationRunListRow>, filter: &MigrationRunsFilter) -> (r:
    Vec<usize>)
    ensures
        forall|all: Seq<usize>|
            #[trigger] is_newest_first_selection(
                run_list_keys(rows@),
                run_list_flags(rows@, *filter),
                all,
            ) ==> r@ == page_window(all, filter.limit, filter.offset),
{
    let n = rows.len();
    let mut keys: Vec<i64> = Vec::new();
    let mut flags: Vec<bool> = Vec::new();
    let mut i: usize = 0;
    while i < n
        invariant
            n == rows@.len(),
            i <= n,
            keys@ == run_list_keys(rows@).take(i as int),
            flags@ == run_list_flags(rows@, *filter).take(i as int),
        decreases n - i,
    {
        let row = &rows[i];
        let listed = admits(&filter.project_id, row.project_id.as_str()) && admits(
            &filter.state,
            row.state.as_str(),
        ) && admits(&filter.catalog_version, row.catalog_version.as_str());
        keys.push(row.started_at_ms);
        flags.push(listed);
        assert(keys@ =~= run_list_keys(rows@).take(i + 1));
        assert(flags@ =~= run_list_flags(rows@, *filter).take(i + 1));
        i = i + 1;
    }
    assert(keys@ =~= run_list_keys(rows@));
    assert(flags@ =~= run_list_flags(rows@, *filter));
    newest_first_page(&keys, &flags, filter.limit, filter.offset)
}

// ── Laws ────────────────────────────────────────────────────────────────────

/// A page never holds more rows than the (normalised) limit, and pages at
/// consecutive offsets tile the listing: the page at `o` followed by the
/// page at `o + l` is the listing from `o` on, up to `2l` rows.
pub proof fn lemma_pages_tile(all: Seq<usize>, limit: i64, offset: i64)
    requires
        limit > 0,
        offset >= 0,
        offset + limit <= i64::MAX,
    ensures
        page_window(all, limit, offset).len() <= limit,
        offset < all.len() ==> page_window(all, limit, offset) + page_window(
            all,
            limit,
            (offset + limit) as i64,
        ) == all.subrange(
            offset as int,
            if offset + 2 * limit < all.len() {
                offset + 2 * limit
            } else {
                all.len() as int
            },
        ),
{
    if offset < all.len() {
        let a = page_window(all, limit, offset);
        let b = page_window(all, limit, (offset + limit) as i64);
        let end: int = if offset + 2 * limit < all.len() {
            offset + 2 * limit
        } else {
            all.len() as int
        };
        assert(a + b =~= all.subrange(offset as int, end));
    }
}

/// Every position a page keeps is a position of the listing it pages.
proof fn lemma_page_window_from(all: Seq<usize>, limit: i64, offset: i64)
    ensures
        forall|k: int|
            0 <= k < page_window(all, limit, offset).len() ==> all.contains(
                #[trigger] page_window(all, limit, offset)[k],
            ),
{
    let o: int = if offset < 0 {
        0
    } else {
        offset as int
    };
    assert forall|k: int| 0 <= k < page_window(all, limit, offset).len() implies all.contains(
        #[trigger] page_window(all, limit, offset)[k],
    ) by {
        assert(page_window(all, limit, offset)[k] == all[o + k]);
    }
}

/// A saga listing returns only sagas that match every present filter
/// (tenant, status, transaction id, correlation id), and the listing it
/// pages holds every saga of the scan that matches them all.
pub proof fn lemma_saga_listing_respects_filters(rows: Seq<SagaListRow>, f: SagaListFilter, all: Seq<usize>)
    requires
        is_newest_first_selection(saga_list_keys(rows), saga_list_flags(rows, f), all),
    ensures
        forall|k: int|
            0 <= k < page_window(all, f.limit, f.offset).len() ==> ({
                let j = #[trigger] page_window(all, f.limit, f.offset)[k] as int;
                &&& j < rows.len()
                &&& (f.tenant_id is Some ==> rows[j].tenant_id@ == f.tenant_id->0@)
                &&& (f.status is Some ==> rows[j].status == f.status->0)
                &&& (f.tx_id is Some ==> rows[j].tx_id@ == f.tx_id->0@)
                &&& (f.correlation_id is Some ==> rows[j].correlation_id@ == f.correlation_id->0@)
            }),
        forall|j: int|
            0 <= j < rows.len() && filter_admits(f.tenant_id, (#[trigger] rows[j]).tenant_id@) && (
            f.status is Some ==> rows[j].status == f.status->0) && filter_admits(f.tx_id, rows[j].tx_id@)
                && filter_admits(f.correlation_id, rows[j].correlation_id@) ==> all.contains(j as usize),
{
    lemma_page_window_from(all, f.limit, f.offset);
    assert forall|k: int| 0 <= k < page_window(all, f.limit, f.offset).len() implies ({
        let j = #[trigger] page_window(all, f.limit, f.offset)[k] as int;
        &&& j < rows.len()
        &&& (f.tenant_id is Some ==> rows[j].tenant_id@ == f.tenant_id->0@)
        &&& (f.status is Some ==> rows[j].status == f.status->0)
        &&& (f.tx_id is Some ==> rows[j].tx_id@ == f.tx_id->0@)
        &&& (f.correlation_id is Some ==> rows[j].correlation_id@ == f.correlation_id->0@)
    }) by {
        let x = page_window(all, f.limit, f.offset)[k];
        assert(all.contains(x));
        let i = choose|i: int| 0 <= i < all.len() && all[i] == x;
        assert(saga_list_flags(rows, f)[all[i] as int]);
    }
    assert forall|j: int|
        0 <= j < rows.len() && filter_admits(f.tenant_id, (#[trigger] rows[j]).tenant_id@) && (
        f.status is Some ==> rows[j].status == f.status->0) && filter_admits(f.tx_id, rows[j].tx_id@)
            && filter_admits(f.correlation_id, rows[j].correlation_id@) implies all.contains(j as usize) by {
        assert(saga_list_flags(rows, f)[j]);
    }
}

/// An admin-audit listing returns only entries that match every present
/// filter (operation, actor, tenant, project), and the listing it pages
/// holds every entry of the scan that matches them all.
pub proof fn lemma_audit_listing_respects_filters(
    rows: Seq<AuditListRow>,
    f: AdminAuditListFilter,
    all: Seq<usize>,
)
    requires
        is_newest_first_selection(audit_list_keys(rows), audit_list_flags(rows, f), all),
    ensures
        forall|k: int|
            0 <= k < page_window(all, f.limit, f.offset).len() ==> ({
                let j = #[trigger] page_window(all, f.limit, f.offset)[k] as int;
                &&& j < rows.len()
                &&& (f.operation is Some ==> rows[j].operation@ == f.operation->0@)
                &&& (f.actor is Some ==> rows[j].actor@ == f.actor->0@)
                &&& (f.tenant_id is Some ==> rows[j].tenant_id@ == f.tenant_id->0@)
                &&& (f.project_id is Some ==> rows[j].project_id@ == f.project_id->0@)
            }),
        forall|j: int|
            0 <= j < rows.len() && filter_admits(f.operation, (#[trigger] rows[j]).operation@)
                && filter_admits(f.actor, rows[j].actor@) && filter_admits(f.tenant_id, rows[j].tenant_id@)
                && filter_admits(f.project_id, rows[j].project_id@) ==> all.contains(j as usize),
{
    lemma_page_window_from(all, f.limit, f.offset);
    assert forall|k: int| 0 <= k < page_window(all, f.limit, f.offset).len() implies ({
        let j = #[trigger] page_window(all, f.limit, f.offset)[k] as int;
        &&& j < rows.len()
        &&& (f.operation is Some ==> rows[j].operation@ == f.operation->0@)
        &&& (f.actor is Some ==> rows[j].actor@ == f.actor->0@)
        &&& (f.tenant_id is Some ==> rows[j].tenant_id@ == f.tenant_id->0@)
        &&& (f.project_id is Some ==> rows[j].project_id@ == f.project_id->0@)
    }) by {
        let x = page_window(all, f.limit, f.offset)[k];
        assert(all.contains(x));
        let i = choose|i: int| 0 <= i < all.len() && all[i] == x;
        assert(audit_list_flags(rows, f)[all[i] as int]);
    }
    assert forall|j: int|
        0 <= j < rows.len() && filter_admits(f.operation, (#[trigger] rows[j]).operation@)
            && filter_admits(f.actor, rows[j].actor@) && filter_admits(f.tenant_id, rows[j].tenant_id@)
            && filter_admits(f.project_id, rows[j].project_id@) implies all.contains(j as usize) by {
        assert(audit_list_flags(rows, f)[j]);
    }
}

} // verus!
