//! Per-group tallies the scan-based stores compute in memory where the
//! database cannot group: pending-task metrics per projection target and
//! dead-letter counts per source. Groups come out in the order their first
//! row was scanned; the stores then keep at most `max(limit, 1)` of them.
use vstd::prelude::*;

use crate::status::ProjectionTaskStatus;
use crate::text::{is_prefix, starts_with, str_eq};

verus! {

// ── Generic tally ───────────────────────────────────────────────────────────

/// Four-part group key.
pub struct GroupKey {
    pub a: String,
    pub b: String,
    pub c: String,
    pub d: String,
}

pub type KeyView = (Seq<char>, Seq<char>, Seq<char>, Seq<char>);

pub open spec fn key_view(k: GroupKey) -> KeyView {
    (k.a@, k.b@, k.c@, k.d@)
}

/// One scanned row as the tally sees it.
pub struct TallyRow {
    pub key: GroupKey,
    /// Whether the row counts at all.
    pub counted: bool,
    /// Timestamp whose minimum each group reports.
    pub stamp: i64,
}

/// One group: its key, how many counted rows carry it, and the smallest
/// stamp among them.
pub struct Tally {
    pub key: GroupKey,
    pub count: i64,
    pub oldest: i64,
}

/// Counted rows with key `k`.
pub open spec fn tally_count(rows: Seq<TallyRow>, k: KeyView) -> nat
    decreases rows.len(),
{
    if rows.len() == 0 {
        0
    } else {
        tally_count(rows.drop_last(), k) + if rows.last().counted && key_view(rows.last().key) == k {
            1nat
        } else {
            0nat
        }
    }
}

/// Smallest stamp among the counted rows with key `k` (meaningful when
/// there is one).
pub open spec fn tally_oldest(rows: Seq<TallyRow>, k: KeyView) -> i64
    decreases rows.len(),
{
    if rows.len() == 0 {
        0
    } else {
        let init = rows.drop_last();
        let r = tally_oldest(init, k);
        let last = rows.last();
        if last.counted && key_view(last.key) == k {
            if tally_count(init, k) == 0 || last.stamp < r {
                last.stamp
            } else {
                r
            }
        } else {
            r
        }
    }
}

/// `groups` is the exact tally of `rows`, groups in first-scan order.
pub open spec fn is_tally_of(rows: Seq<TallyRow>, groups: Seq<Tally>) -> bool {
    &&& forall|x: int, y: int|
        0 <= x < y < groups.len() ==> key_view(#[trigger] groups[x].key) != key_view(
            #[trigger] groups[y].key,
        )
    &&& forall|x: int|
        0 <= x < groups.len() ==> #[trigger] groups[x].count == tally_count(rows, key_view(groups[x].key))
            && groups[x].count > 0 && groups[x].oldest == tally_oldest(rows, key_view(groups[x].key))
    &&& forall|j: int|
        0 <= j < rows.len() && #[trigger] rows[j].counted ==> exists|x: int|
            0 <= x < groups.len() && key_view(#[trigger] groups[x].key) == key_view(rows[j].key)
}

proof fn lemma_count_positive_has_row(rows: Seq<TallyRow>, k: KeyView)
    requires
        tally_count(rows, k) > 0,
    ensures
        exists|j: int| 0 <= j < rows.len() && #[trigger] rows[j].counted && key_view(rows[j].key) == k,
    decreases rows.len(),
{
    let init = rows.drop_last();
    if tally_count(init, k) > 0 {
        lemma_count_positive_has_row(init, k);
        let j = choose|j: int| 0 <= j < init.len() && #[trigger] init[j].counted && key_view(init[j].key) == k;
        assert(rows[j] == init[j]);
    } else {
        assert(rows[rows.len() - 1].counted);
    }
}

proof fn lemma_count_bounded(rows: Seq<TallyRow>, k: KeyView)
    ensures
        tally_count(rows, k) <= rows.len(),
    decreases rows.len(),
{
    if rows.len() > 0 {
        lemma_count_bounded(rows.drop_last(), k);
    }
}

fn key_eq(x: &GroupKey, y: &GroupKey) -> (r: bool)
    ensures
        r == (key_view(*x) == key_view(*y)),
{
    str_eq(x.a.as_str(), y.a.as_str()) && str_eq(x.b.as_str(), y.b.as_str()) && str_eq(
        x.c.as_str(),
        y.c.as_str(),
    ) && str_eq(x.d.as_str(), y.d.as_str())
}

fn copy_key(k: &GroupKey) -> (r: GroupKey)
    ensures
        key_view(r) == key_view(*k),
{
    GroupKey { a: k.a.clone(), b: k.b.clone(), c: k.c.clone(), d: k.d.clone() }
}

/// Tally the counted rows per key, groups in the order their first counted
/// row was scanned.
pub fn tally_rows(rows: &Vec<TallyRow>) -> (groups: Vec<Tally>)
    requires
        rows@.len() < i64::MAX,
    ensures
        is_tally_of(rows@, groups@),
{
    let n = rows.len();
    let mut groups: Vec<Tally> = Vec::new();
    let mut i: usize = 0;
    while i < n
        invariant
            n == rows@.len(),
            n < i64::MAX,
            i <= n,
            is_tally_of(rows@.take(i as int), groups@),
        decreases n - i,
    {
        let ghost pre = rows@.take(i as int);
        let ghost post = rows@.take(i + 1);
        let ghost g0 = groups@;
        assert(post.drop_last() =~= pre);
        assert(post.last() == rows@[i as int]);
        let row = &rows[i];
        if row.counted {
            let ghost k = key_view(row.key);
            let m = groups.len();
            let mut pos: usize = 0;
            while pos < m && !key_eq(&groups[pos].key, &row.key)
                invariant
                    m == groups@.len(),
                    pos <= m,
                    forall|x: int| 0 <= x < pos ==> key_view(#[trigger] groups@[x].key) != k,
                    k == key_view(row.key),
                decreases m - pos,
            {
                pos = pos + 1;
            }
            proof {
                lemma_count_bounded(pre, k);
            }
            if pos < m {
                let old_count = groups[pos].count;
                let old_oldest = groups[pos].oldest;
                let new_oldest = if row.stamp < old_oldest {
                    row.stamp
                } else {
                    old_oldest
                };
                let key = copy_key(&groups[pos].key);
                let t = Tally { key, count: old_count + 1, oldest: new_oldest };
                groups.set(pos, t);
                proof {
                    assert(groups@ == g0.update(pos as int, t));
                    assert forall|x: int| 0 <= x < groups@.len() implies #[trigger] groups@[x].count
                        == tally_count(post, key_view(groups@[x].key)) && groups@[x].count > 0
                        && groups@[x].oldest == tally_oldest(post, key_view(groups@[x].key)) by {
                        if x != pos {
                            assert(groups@[x] == g0[x]);
                            assert(key_view(g0[x].key) != k);
                        }
                    }
                    assert forall|x: int, y: int| 0 <= x < y < groups@.len() implies key_view(
                        #[trigger] groups@[x].key,
                    ) != key_view(#[trigger] groups@[y].key) by {
                        assert(key_view(groups@[x].key) == key_view(g0[x].key));
                        assert(key_view(groups@[y].key) == key_view(g0[y].key));
                    }
                    assert forall|j: int| 0 <= j < post.len() && #[trigger] post[j].counted implies exists|
                        x: int,
                    |
                        0 <= x < groups@.len() && key_view(#[trigger] groups@[x].key) == key_view(
                            post[j].key,
                        ) by {
                        if j < i {
                            assert(pre[j] == post[j]);
                            let x = choose|x: int|
                                0 <= x < g0.len() && key_view(#[trigger] g0[x].key) == key_view(
                                    pre[j].key,
                                );
                            assert(key_view(groups@[x].key) == key_view(g0[x].key));
                        } else {
                            assert(key_view(groups@[pos as int].key) == k);
                        }
                    }
                }
            } else {
                proof {
                    if tally_count(pre, k) > 0 {
                        lemma_count_positive_has_row(pre, k);
                        let j = choose|j: int|
                            0 <= j < pre.len() && #[trigger] pre[j].counted && key_view(pre[j].key) == k;
                        let x = choose|x: int|
                            0 <= x < g0.len() && key_view(#[trigger] g0[x].key) == key_view(pre[j].key);
                        assert(key_view(g0[x].key) != k);
                    }
                }
                let key = copy_key(&row.key);
                let t = Tally { key, count: 1, oldest: row.stamp };
                groups.push(t);
                proof {
                    assert(groups@ == g0.push(t));
                    assert forall|x: int| 0 <= x < groups@.len() implies #[trigger] groups@[x].count
                        == tally_count(post, key_view(groups@[x].key)) && groups@[x].count > 0
                        && groups@[x].oldest == tally_oldest(post, key_view(groups@[x].key)) by {
                        if x < m {
                            assert(groups@[x] == g0[x]);
                            assert(key_view(g0[x].key) != k);
                        }
                    }
                    assert forall|x: int, y: int| 0 <= x < y < groups@.len() implies key_view(
                        #[trigger] groups@[x].key,
                    ) != key_view(#[trigger] groups@[y].key) by {
                        assert(groups@[x] == g0[x]);
                        if y < m {
                            assert(groups@[y] == g0[y]);
                        }
                    }
                    assert forall|j: int| 0 <= j < post.len() && #[trigger] post[j].counted implies exists|
                        x: int,
                    |
                        0 <= x < groups@.len() && key_view(#[trigger] groups@[x].key) == key_view(
                            post[j].key,
                        ) by {
                        if j < i {
                            assert(pre[j] == post[j]);
                            let x = choose|x: int|
                                0 <= x < g0.len() && key_view(#[trigger] g0[x].key) == key_view(
                                    pre[j].key,
                                );
                            assert(groups@[x] == g0[x]);
                        } else {
                            assert(key_view(groups@[m as int].key) == k);
                        }
                    }
                }
            }
        } else {
            proof {
                assert forall|x: int| 0 <= x < groups@.len() implies #[trigger] groups@[x].count
                    == tally_count(post, key_view(groups@[x].key)) && groups@[x].count > 0
                    && groups@[x].oldest == tally_oldest(post, key_view(groups@[x].key)) by {}
                assert forall|j: int| 0 <= j < post.len() && #[trigger] post[j].counted implies exists|
                    x: int,
                |
                    0 <= x < groups@.len() && key_view(#[trigger] groups@[x].key) == key_view(
                        post[j].key,
                    ) by {
                    assert(pre[j] == post[j]);
                }
            }
        }
        i = i + 1;
    }
    assert(rows@.take(n as int) =~= rows@);
    groups
}

/// At least one group is reported, at most `limit`.
pub open spec fn group_cap(limit: i64) -> int {
    if limit < 1 {
        1
    } else {
        limit as int
    }
}

/// How many of `n` groups a listing with `limit` keeps.
pub open spec fn kept(n: int, limit: i64) -> int {
    if group_cap(limit) < n {
        group_cap(limit)
    } else {
        n
    }
}

fn kept_count(n: usize, limit: i64) -> (r: usize)
    ensures
        r == kept(n as int, limit),
{
    if limit < 1 {
        if n < 1 {
            n
        } else {
            1
        }
    } else if (limit as u64 as u128) < (n as u128) {
        limit as usize
    } else {
        n
    }
}

// ── Pending-task metrics ────────────────────────────────────────────────────

/// The fields of a projection-task row the metrics read.
pub struct PendingTaskRow {
    pub status: ProjectionTaskStatus,
    pub project_id: String,
    pub target_backend: String,
    pub target_instance: String,
    pub projection_kind: String,
    pub created_at_ms: i64,
}

/// Backlog of one projection target: tasks still waiting (pending or
/// failed) and the creation time of the oldest.
pub struct PendingTaskMetric {
    pub project_id: String,
    pub target_backend: String,
    pub target_instance: String,
    pub projection_kind: String,
    pub pending: i64,
    pub oldest_created_at_ms: i64,
}

pub open spec fn pending_row_tally(t: PendingTaskRow) -> (KeyView, bool, i64) {
    (
        (t.project_id@, t.target_backend@, t.target_instance@, t.projection_kind@),
        t.status == ProjectionTaskStatus::Pending || t.status == ProjectionTaskStatus::Failed,
        t.created_at_ms,
    )
}

pub open spec fn tally_row_view(r: TallyRow) -> (KeyView, bool, i64) {
    (key_view(r.key), r.counted, r.stamp)
}

pub open spec fn metric_view(m: PendingTaskMetric) -> (KeyView, i64, i64) {
    ((m.project_id@, m.target_backend@, m.target_instance@, m.projection_kind@), m.pending, m.oldest_created_at_ms)
}

pub open spec fn tally_metric_view(t: Tally) -> (KeyView, i64, i64) {
    (key_view(t.key), t.count, t.oldest)
}

/// The pending-task metrics of a scan: one metric per projection target
/// (project, backend, instance, kind) with waiting tasks, in first-scan
/// order, at most `max(limit, 1)` of them.
pub fn pending_task_metrics(tasks: &Vec<PendingTaskRow>, limit: i64) -> (r: Vec<PendingTaskMetric>)
    requires
        tasks@.len() < i64::MAX,
    ensures
        exists|rows: Seq<TallyRow>, groups: Seq<Tally>|
            #![trigger is_tally_of(rows, groups)]
            rows.len() == tasks@.len() && (forall|j: int|
                0 <= j < rows.len() ==> tally_row_view(#[trigger] rows[j]) == pending_row_tally(
                    tasks@[j],
                )) && is_tally_of(rows, groups) && r@.len() == kept(groups.len() as int, limit)
                && forall|x: int|
                0 <= x < r@.len() ==> metric_view(#[trigger] r@[x]) == tally_metric_view(groups[x]),
{
    let n = tasks.len();
    let mut rows: Vec<TallyRow> = Vec::new();
    let mut i: usize = 0;
    while i < n
        invariant
            n == tasks@.len(),
            i <= n,
            rows@.len() == i,
            forall|j: int|
                0 <= j < i ==> tally_row_view(#[trigger] rows@[j]) == pending_row_tally(tasks@[j]),
        decreases n - i,
    {
        let t = &tasks[i];
        let counted = match t.status {
            ProjectionTaskStatus::Pending => true,
            ProjectionTaskStatus::Failed => true,
            _ => false,
        };
        rows.push(
            TallyRow {
                key: GroupKey {
                    a: t.project_id.clone(),
                    b: t.target_backend.clone(),
                    c: t.target_instance.clone(),
                    d: t.projection_kind.clone(),
                },
                counted,
                stamp: t.created_at_ms,
            },
        );
        i = i + 1;
    }
    let groups = tally_rows(&rows);
    let keep = kept_count(groups.len(), limit);
    let mut out: Vec<PendingTaskMetric> = Vec::new();
    let mut x: usize = 0;
    while x < keep
        invariant
            keep <= groups@.len(),
            x <= keep,
            out@.len() == x,
            forall|y: int| 0 <= y < x ==> metric_view(#[trigger] out@[y]) == tally_metric_view(groups@[y]),
        decreases keep - x,
    {
        let g = &groups[x];
        out.push(
            PendingTaskMetric {
                project_id: g.key.a.clone(),
                target_backend: g.key.b.clone(),
                target_instance: g.key.c.clone(),
                projection_kind: g.key.d.clone(),
                pending: g.count,
                oldest_created_at_ms: g.oldest,
            },
        );
        x = x + 1;
    }
    out
}

// ── Dead-letter groups ──────────────────────────────────────────────────────

/// The fields of a projection-task row the dead-letter listing reads.
pub struct DeadLetterRow {
    pub project_id: String,
    pub source_table: String,
    pub target_backend: String,
    pub target_instance: String,
    pub status: String,
    pub last_error: String,
}

/// Dead-lettered tasks of one source and target.
pub struct DeadLetterGroup {
    pub project_id: String,
    pub source_table: String,
    pub target_backend: String,
    pub target_instance: String,
    pub dead_count: i64,
}

/// A row counts when it is dead-lettered and, when `excluded_prefix` is
/// given, its last error does not start with it.
pub open spec fn dead_row_counts(r: DeadLetterRow, excluded_prefix: Option<Seq<char>>) -> bool {
    r.status@ == "DEAD_LETTER"@ && match excluded_prefix {
        Some(p) => !is_prefix(p, r.last_error@),
        None => true,
    }
}

pub open spec fn dead_row_tally(r: DeadLetterRow, excluded_prefix: Option<Seq<char>>) -> (KeyView, bool) {
    (
        (r.project_id@, r.source_table@, r.target_backend@, r.target_instance@),
        dead_row_counts(r, excluded_prefix),
    )
}

pub open spec fn dead_group_view(g: DeadLetterGroup) -> (KeyView, i64) {
    ((g.project_id@, g.source_table@, g.target_backend@, g.target_instance@), g.dead_count)
}

pub open spec fn opt_view(p: Option<&str>) -> Option<Seq<char>> {
    match p {
        Some(s) => Some(s@),
        None => None,
    }
}

/// `r` is what a dead-letter listing of `rows` reports: the tally of the
/// rows keyed by (project, source table, backend, instance), counting the
/// rows that count, cut to `max(limit, 1)` groups.
pub open spec fn dead_letter_groups_of(
    rows: Seq<DeadLetterRow>,
    excluded_prefix: Option<Seq<char>>,
    limit: i64,
    r: Seq<DeadLetterGroup>,
) -> bool {
    exists|trows: Seq<TallyRow>, groups: Seq<Tally>|
        #![trigger is_tally_of(trows, groups)]
        trows.len() == rows.len() && (forall|j: int|
            0 <= j < trows.len() ==> (key_view(#[trigger] trows[j].key), trows[j].counted)
                == dead_row_tally(rows[j], excluded_prefix)) && is_tally_of(trows, groups) && r.len()
            == kept(groups.len() as int, limit) && forall|x: int|
            0 <= x < r.len() ==> dead_group_view(#[trigger] r[x]) == (
                key_view(groups[x].key),
                groups[x].count,
            )
}

/// How many rows of a scan are dead-lettered, not excluded by the error
/// prefix, and belong to project `key.0`, source table `key.1`, backend
/// `key.2` and instance `key.3`.
pub open spec fn dead_letter_count(
    rows: Seq<DeadLetterRow>,
    excluded_prefix: Option<Seq<char>>,
    key: (Seq<char>, Seq<char>, Seq<char>, Seq<char>),
) -> nat
    decreases rows.len(),
{
    if rows.len() == 0 {
        0
    } else {
        let r = rows.last();
        dead_letter_count(rows.drop_last(), excluded_prefix, key) + if r.status@ == "DEAD_LETTER"@
            && !(excluded_prefix is Some && is_prefix(excluded_prefix->0, r.last_error@))
            && r.project_id@ == key.0 && r.source_table@ == key.1 && r.target_backend@ == key.2
            && r.target_instance@ == key.3 {
            1nat
        } else {
            0nat
        }
    }
}

/// Dead-letter counts of a scan per (project, source table, backend,
/// instance), in first-scan order, at most `max(limit, 1)` groups. Rows
/// whose last error starts with `excluded_prefix` are left out.
pub fn dead_letter_groups(rows: &Vec<DeadLetterRow>, excluded_prefix: Option<&str>, limit: i64) -> (r: Vec<
    DeadLetterGroup,
>)
    requires
        rows@.len() < i64::MAX,
    ensures
        dead_letter_groups_of(rows@, opt_view(excluded_prefix), limit, r@),
        forall|x: int|
            0 <= x < r@.len() ==> (#[trigger] r@[x]).dead_count == dead_letter_count(
                rows@,
                opt_view(excluded_prefix),
                (r@[x].project_id@, r@[x].source_table@, r@[x].target_backend@, r@[x].target_instance@),
            ) && r@[x].dead_count > 0,
{
    let n = rows.len();
    let mut trows: Vec<TallyRow> = Vec::new();
    let mut i: usize = 0;
    while i < n
        invariant
            n == rows@.len(),
            i <= n,
            trows@.len() == i,
            forall|j: int|
                0 <= j < i ==> (key_view(#[trigger] trows@[j].key), trows@[j].counted) == dead_row_tally(
                    rows@[j],
                    opt_view(excluded_prefix),
                ),
        decreases n - i,
    {
        let row = &rows[i];
        let dead = str_eq(row.status.as_str(), "DEAD_LETTER");
        let excluded = match excluded_prefix {
            Some(p) => starts_with(row.last_error.as_str(), p),
            None => false,
        };
        trows.push(
            TallyRow {
                key: GroupKey {
                    a: row.project_id.clone(),
                    b: row.source_table.clone(),
                    c: row.target_backend.clone(),
                    d: row.target_instance.clone(),
                },
                counted: dead && !excluded,
                stamp: 0,
            },
        );
        i = i + 1;
    }
    let groups = tally_rows(&trows);
    let keep = kept_count(groups.len(), limit);
    let mut out: Vec<DeadLetterGroup> = Vec::new();
    let mut x: usize = 0;
    while x < keep
        invariant
            keep <= groups@.len(),
            x <= keep,
            out@.len() == x,
            forall|y: int|
                0 <= y < x ==> dead_group_view(#[trigger] out@[y]) == (
                    key_view(groups@[y].key),
                    groups@[y].count,
                ),
        decreases keep - x,
    {
        let g = &groups[x];
        out.push(
            DeadLetterGroup {
                project_id: g.key.a.clone(),
                source_table: g.key.b.clone(),
                target_backend: g.key.c.clone(),
                target_instance: g.key.d.clone(),
                dead_count: g.count,
            },
        );
        x = x + 1;
    }
    proof {
        assert(dead_letter_groups_of(rows@, opt_view(excluded_prefix), limit, out@));
        lemma_dead_letter_groups_count_their_rows(rows@, opt_view(excluded_prefix), limit, out@);
    }
    out
}

/// A dead-lettered row of the given source and target is requeued by a
/// repair, unless its last error starts with `excluded_prefix`.
pub fn requeue_by_source_applies(
    row: &DeadLetterRow,
    excluded_prefix: Option<&str>,
    project_id: &str,
    source_table: &str,
    target_backend: &str,
    target_instance: &str,
) -> (r: bool)
    ensures
        r == (dead_row_counts(*row, opt_view(excluded_prefix)) && row.project_id@ == project_id@
            && row.source_table@ == source_table@ && row.target_backend@ == target_backend@
            && row.target_instance@ == target_instance@),
{
    if !str_eq(row.status.as_str(), "DEAD_LETTER") {
        return false;
    }
    if let Some(p) = excluded_prefix {
        if starts_with(row.last_error.as_str(), p) {
            return false;
        }
    }
    str_eq(row.project_id.as_str(), project_id) && str_eq(row.source_table.as_str(), source_table)
        && str_eq(row.target_backend.as_str(), target_backend) && str_eq(
        row.target_instance.as_str(),
        target_instance,
    )
}

// ── Laws ────────────────────────────────────────────────────────────────────

/// Each group's count is at most the number of rows scanned, and the counts
/// of a full tally add up to at most the rows scanned.
pub proof fn lemma_group_count_bounded(rows: Seq<TallyRow>, k: KeyView)
    ensures
        tally_count(rows, k) <= rows.len(),
{
    lemma_count_bounded(rows, k);
}

/// A group's oldest stamp belongs to one of its counted rows and no
/// counted row of the group is older.
pub proof fn lemma_group_oldest_is_minimum(rows: Seq<TallyRow>, k: KeyView)
    requires
        tally_count(rows, k) > 0,
    ensures
        exists|j: int|
            0 <= j < rows.len() && #[trigger] rows[j].counted && key_view(rows[j].key) == k
                && rows[j].stamp == tally_oldest(rows, k),
        forall|j: int|
            0 <= j < rows.len() && #[trigger] rows[j].counted && key_view(rows[j].key) == k
                ==> tally_oldest(rows, k) <= rows[j].stamp,
    decreases rows.len(),
{
    let init = rows.drop_last();
    let last = rows.len() - 1;
    assert(rows[last] == rows.last());
    if tally_count(init, k) > 0 {
        lemma_group_oldest_is_minimum(init, k);
        let w = choose|j: int|
            0 <= j < init.len() && #[trigger] init[j].counted && key_view(init[j].key) == k
                && init[j].stamp == tally_oldest(init, k);
        assert(rows[w] == init[w]);
        assert forall|j: int|
            0 <= j < rows.len() && #[trigger] rows[j].counted && key_view(rows[j].key) == k implies tally_oldest(
            rows,
            k,
        ) <= rows[j].stamp by {
            if j < last {
                assert(rows[j] == init[j]);
            }
        }
    } else {
        assert forall|j: int|
            0 <= j < rows.len() && #[trigger] rows[j].counted && key_view(rows[j].key) == k implies tally_oldest(
            rows,
            k,
        ) <= rows[j].stamp by {
            if j < last {
                assert(rows[j] == init[j]);
                lemma_count_positive_zero_contra(init, k, j);
            }
        }
    }
}

proof fn lemma_count_positive_zero_contra(rows: Seq<TallyRow>, k: KeyView, j: int)
    requires
        0 <= j < rows.len(),
        rows[j].counted,
        key_view(rows[j].key) == k,
    ensures
        tally_count(rows, k) > 0,
    decreases rows.len(),
{
    if j < rows.len() - 1 {
        assert(rows.drop_last()[j] == rows[j]);
        lemma_count_positive_zero_contra(rows.drop_last(), k, j);
    }
}

proof fn lemma_tally_counts_dead_rows(
    rows: Seq<DeadLetterRow>,
    excluded_prefix: Option<Seq<char>>,
    trows: Seq<TallyRow>,
    k: KeyView,
)
    requires
        trows.len() == rows.len(),
        forall|j: int|
            0 <= j < trows.len() ==> (key_view(#[trigger] trows[j].key), trows[j].counted)
                == dead_row_tally(rows[j], excluded_prefix),
    ensures
        tally_count(trows, k) == dead_letter_count(rows, excluded_prefix, k),
    decreases rows.len(),
{
    if rows.len() > 0 {
        let n = rows.len() - 1;
        assert(trows[n] == trows.last());
        assert forall|j: int| 0 <= j < trows.drop_last().len() implies (key_view(
            #[trigger] trows.drop_last()[j].key,
        ), trows.drop_last()[j].counted) == dead_row_tally(rows.drop_last()[j], excluded_prefix) by {
            assert(trows.drop_last()[j] == trows[j]);
            assert(rows.drop_last()[j] == rows[j]);
        }
        lemma_tally_counts_dead_rows(rows.drop_last(), excluded_prefix, trows.drop_last(), k);
        let r = rows.last();
        assert((key_view(trows[n].key), trows[n].counted) == dead_row_tally(rows[n], excluded_prefix));
        assert(rows[n] == r);
        assert(dead_row_counts(r, excluded_prefix) == (r.status@ == "DEAD_LETTER"@ && !(
        excluded_prefix is Some && is_prefix(excluded_prefix->0, r.last_error@))));
        assert((key_view(trows.last().key) == k) == (r.project_id@ == k.0 && r.source_table@ == k.1
            && r.target_backend@ == k.2 && r.target_instance@ == k.3));
    }
}

/// Each dead-letter group reports the number of rows of the scan that are
/// dead-lettered, not excluded by the error prefix, and carry the group's
/// own project, source table, backend and instance (at least one); no two
/// groups share that key; and when the listing is not cut short by its cap,
/// every counted row's project, source, backend and instance has a group.
pub proof fn lemma_dead_letter_groups_count_their_rows(
    rows: Seq<DeadLetterRow>,
    excluded_prefix: Option<Seq<char>>,
    limit: i64,
    r: Seq<DeadLetterGroup>,
)
    requires
        dead_letter_groups_of(rows, excluded_prefix, limit, r),
    ensures
        forall|x: int|
            0 <= x < r.len() ==> (#[trigger] r[x]).dead_count == dead_letter_count(
                rows,
                excluded_prefix,
                (r[x].project_id@, r[x].source_table@, r[x].target_backend@, r[x].target_instance@),
            ) && r[x].dead_count > 0,
        forall|x: int, y: int|
            0 <= x < y < r.len() ==> ((#[trigger] r[x]).project_id@, r[x].source_table@,
                r[x].target_backend@, r[x].target_instance@) != ((#[trigger] r[y]).project_id@,
                r[y].source_table@, r[y].target_backend@, r[y].target_instance@),
        r.len() < group_cap(limit) ==> forall|j: int|
            0 <= j < rows.len() && (#[trigger] rows[j]).status@ == "DEAD_LETTER"@ && !(
            excluded_prefix is Some && is_prefix(excluded_prefix->0, rows[j].last_error@))
                ==> exists|x: int|
                0 <= x < r.len() && (#[trigger] r[x]).project_id@ == rows[j].project_id@
                    && r[x].source_table@ == rows[j].source_table@ && r[x].target_backend@
                    == rows[j].target_backend@ && r[x].target_instance@ == rows[j].target_instance@,
{
    let (trows, groups) = choose|trows: Seq<TallyRow>, groups: Seq<Tally>|
        #![trigger is_tally_of(trows, groups)]
        trows.len() == rows.len() && (forall|j: int|
            0 <= j < trows.len() ==> (key_view(#[trigger] trows[j].key), trows[j].counted)
                == dead_row_tally(rows[j], excluded_prefix)) && is_tally_of(trows, groups) && r.len()
            == kept(groups.len() as int, limit) && forall|x: int|
            0 <= x < r.len() ==> dead_group_view(#[trigger] r[x]) == (
                key_view(groups[x].key),
                groups[x].count,
            );
    assert forall|x: int| 0 <= x < r.len() implies (#[trigger] r[x]).dead_count == dead_letter_count(
        rows,
        excluded_prefix,
        (r[x].project_id@, r[x].source_table@, r[x].target_backend@, r[x].target_instance@),
    ) && r[x].dead_count > 0 by {
        assert(dead_group_view(r[x]) == (key_view(groups[x].key), groups[x].count));
        lemma_tally_counts_dead_rows(rows, excluded_prefix, trows, key_view(groups[x].key));
    }
    assert forall|x: int, y: int| 0 <= x < y < r.len() implies ((#[trigger] r[x]).project_id@,
        r[x].source_table@, r[x].target_backend@, r[x].target_instance@) != ((#[trigger] r[y]).project_id@,
        r[y].source_table@, r[y].target_backend@, r[y].target_instance@) by {
        assert(dead_group_view(r[x]) == (key_view(groups[x].key), groups[x].count));
        assert(dead_group_view(r[y]) == (key_view(groups[y].key), groups[y].count));
        assert(key_view(groups[x].key) != key_view(groups[y].key));
    }
    if r.len() < group_cap(limit) {
        assert(r.len() == groups.len());
        assert forall|j: int|
            0 <= j < rows.len() && (#[trigger] rows[j]).status@ == "DEAD_LETTER"@ && !(
            excluded_prefix is Some && is_prefix(excluded_prefix->0, rows[j].last_error@))
                implies exists|x: int|
                0 <= x < r.len() && (#[trigger] r[x]).project_id@ == rows[j].project_id@
                    && r[x].source_table@ == rows[j].source_table@ && r[x].target_backend@
                    == rows[j].target_backend@ && r[x].target_instance@ == rows[j].target_instance@ by {
            assert((key_view(trows[j].key), trows[j].counted) == dead_row_tally(rows[j], excluded_prefix));
            assert(trows[j].counted);
            let x = choose|x: int|
                0 <= x < groups.len() && key_view(#[trigger] groups[x].key) == key_view(trows[j].key);
            assert(dead_group_view(r[x]) == (key_view(groups[x].key), groups[x].count));
        }
    }
}

} // verus!
