//! SQL-dialect knobs and the SQL-template helpers the SQL system stores
//! share: bound-parameter placeholders, optional-equality WHERE clauses,
//! limit/offset defaults and the `GROUP BY status` summary folds.
use vstd::prelude::*;

use crate::status::{
    ProjectionTaskStatus, ProjectionTaskSummary, SagaStatus, SagaSummary, SystemStoreError,
    projection_status_parse_spec, projection_summary_with, saga_status_parse_spec,
    saga_summary_with,
};
use crate::text::{nat_decimal, usize_to_decimal};

verus! {

// ── Placeholder style ───────────────────────────────────────────────────────

/// How a dialect renders bound-parameter placeholders.
#[derive(Debug, Clone, Copy, PartialEq, Eq)]
pub enum Placeholder {
    /// `$1`, `$2`, … (Postgres).
    Numbered,
    /// `?` (MySQL, SQLite).
    Positional,
}

/// The placeholder text for 1-based bind position `n`.
pub open spec fn placeholder_text(p: Placeholder, n: nat) -> Seq<char> {
    match p {
        Placeholder::Numbered => seq!['$'] + nat_decimal(n),
        Placeholder::Positional => seq!['?'],
    }
}

impl Placeholder {
    /// Render the placeholder for the 1-based bind position `n`: `$n` when
    /// numbered, `?` (ignoring `n`) when positional.
    pub fn render(self, n: usize) -> (r: String)
        ensures
            r@ == placeholder_text(self, n as nat),
    {
        match self {
            Placeholder::Numbered => {
                let mut s = String::new();
                crate::text::push_char(&mut s, '$');
                s.concat(usize_to_decimal(n).as_str())
            },
            Placeholder::Positional => {
                let mut s = String::new();
                crate::text::push_char(&mut s, '?');
                s
            },
        }
    }
}

/// The placeholder for a bind position counted past `usize`.
fn render_position(p: Placeholder, n: u128) -> (r: String)
    ensures
        r@ == placeholder_text(p, n as nat),
{
    let mut s = String::new();
    match p {
        Placeholder::Numbered => {
            crate::text::push_char(&mut s, '$');
            s.concat(crate::text::u128_to_decimal(n).as_str())
        },
        Placeholder::Positional => {
            crate::text::push_char(&mut s, '?');
            s
        },
    }
}

// ── SQL dialect adapter ─────────────────────────────────────────────────────

/// The mechanical dialect knobs the shared SQL-template helpers need.
#[derive(Debug, Clone, Copy, PartialEq, Eq)]
pub struct SqlDialect {
    /// Placeholder rendering style.
    pub placeholder: Placeholder,
}

impl SqlDialect {
    /// Postgres: `$N` placeholders.
    pub fn postgres() -> (d: SqlDialect)
        ensures
            d.placeholder == Placeholder::Numbered,
    {
        SqlDialect { placeholder: Placeholder::Numbered }
    }

    /// MySQL: `?` placeholders.
    pub fn mysql() -> (d: SqlDialect)
        ensures
            d.placeholder == Placeholder::Positional,
    {
        SqlDialect { placeholder: Placeholder::Positional }
    }

    /// SQLite: `?` placeholders.
    pub fn sqlite() -> (d: SqlDialect)
        ensures
            d.placeholder == Placeholder::Positional,
    {
        SqlDialect { placeholder: Placeholder::Positional }
    }

    /// Render the placeholder for 1-based bind position `n`.
    pub fn placeholder(self, n: usize) -> (r: String)
        ensures
            r@ == placeholder_text(self.placeholder, n as nat),
    {
        self.placeholder.render(n)
    }
}

// ── Equality-filter WHERE builder ───────────────────────────────────────────

/// An assembled optional-equality WHERE clause plus the placeholders of the
/// `LIMIT` and `OFFSET` binds that follow the present filters.
#[derive(Debug, Clone)]
pub struct WhereClause {
    /// `WHERE col = <ph> AND …`, or the empty string when no filter is present.
    pub where_sql: String,
    /// Placeholder of the `LIMIT` bind.
    pub limit_placeholder: String,
    /// Placeholder of the `OFFSET` bind.
    pub offset_placeholder: String,
}

/// Views of the `(column, is_present)` filter list.
pub open spec fn filters_view(filters: Seq<(&str, bool)>) -> Seq<(Seq<char>, bool)> {
    filters.map_values(|f: (&str, bool)| (f.0@, f.1))
}

/// Number of present filters.
pub open spec fn present_count(filters: Seq<(Seq<char>, bool)>) -> nat
    decreases filters.len(),
{
    if filters.len() == 0 {
        0
    } else {
        present_count(filters.drop_last()) + if filters.last().1 {
            1nat
        } else {
            0nat
        }
    }
}

/// The `col = <ph>` terms of the present filters, numbered by bind order.
pub open spec fn eq_terms(p: Placeholder, filters: Seq<(Seq<char>, bool)>) -> Seq<Seq<char>>
    decreases filters.len(),
{
    if filters.len() == 0 {
        Seq::empty()
    } else {
        let prior = eq_terms(p, filters.drop_last());
        if filters.last().1 {
            prior.push(
                filters.last().0 + " = "@ + placeholder_text(
                    p,
                    present_count(filters.drop_last()) + 1,
                ),
            )
        } else {
            prior
        }
    }
}

/// `terms` joined by ` AND `.
pub open spec fn join_and(terms: Seq<Seq<char>>) -> Seq<char>
    decreases terms.len(),
{
    if terms.len() == 0 {
        Seq::empty()
    } else if terms.len() == 1 {
        terms[0]
    } else {
        join_and(terms.drop_last()) + " AND "@ + terms.last()
    }
}

pub open spec fn where_sql_spec(p: Placeholder, filters: Seq<(Seq<char>, bool)>) -> Seq<char> {
    let terms = eq_terms(p, filters);
    if terms.len() == 0 {
        Seq::empty()
    } else {
        "WHERE "@ + join_and(terms)
    }
}

proof fn lemma_eq_terms_len(p: Placeholder, filters: Seq<(Seq<char>, bool)>)
    ensures
        eq_terms(p, filters).len() == present_count(filters),
        present_count(filters) <= filters.len(),
    decreases filters.len(),
{
    if filters.len() > 0 {
        lemma_eq_terms_len(p, filters.drop_last());
    }
}

/// Assemble `WHERE col = <ph> AND …` from `(column, is_present)` pairs,
/// skipping absent filters, and compute the `LIMIT`/`OFFSET` placeholders
/// that follow the present filters in bind order.
pub fn build_eq_where(dialect: SqlDialect, filters: &[(&str, bool)]) -> (w: WhereClause)
    ensures
        w.where_sql@ == where_sql_spec(dialect.placeholder, filters_view(filters@)),
        w.limit_placeholder@ == placeholder_text(
            dialect.placeholder,
            present_count(filters_view(filters@)) + 1,
        ),
        w.offset_placeholder@ == placeholder_text(
            dialect.placeholder,
            present_count(filters_view(filters@)) + 2,
        ),
{
    let ghost fv = filters_view(filters@);
    let n = filters.len();
    let mut joined = String::new();
    let mut bind_index: u128 = 0;
    let mut i: usize = 0;
    while i < n
        invariant
            n == filters@.len(),
            fv == filters_view(filters@),
            i <= n,
            bind_index == present_count(fv.take(i as int)),
            bind_index <= i,
            joined@ == join_and(eq_terms(dialect.placeholder, fv.take(i as int))),
        decreases n - i,
    {
        let (column, present) = filters[i];
        let ghost prev = fv.take(i as int);
        assert(fv.take(i + 1).drop_last() =~= prev);
        assert(fv.take(i + 1).last() == (column@, present));
        proof {
            lemma_eq_terms_len(dialect.placeholder, prev);
        }
        if present {
            bind_index = bind_index + 1;
            let ph = render_position(dialect.placeholder, bind_index);
            let term = String::from_str(column).concat(" = ").concat(ph.as_str());
            let ghost terms_next = eq_terms(dialect.placeholder, fv.take(i + 1));
            assert(terms_next == eq_terms(dialect.placeholder, prev).push(term@));
            if bind_index == 1 {
                assert(eq_terms(dialect.placeholder, prev).len() == 0);
                assert(terms_next.len() == 1);
                joined = term;
            } else {
                assert(terms_next.drop_last() =~= eq_terms(dialect.placeholder, prev));
                joined = joined.concat(" AND ").concat(term.as_str());
            }
        }
        i = i + 1;
    }
    assert(fv.take(n as int) =~= fv);
    proof {
        lemma_eq_terms_len(dialect.placeholder, fv);
    }
    let where_sql = if bind_index == 0 {
        String::new()
    } else {
        String::from_str("WHERE ").concat(joined.as_str())
    };
    WhereClause {
        where_sql,
        limit_placeholder: render_position(dialect.placeholder, bind_index + 1),
        offset_placeholder: render_position(dialect.placeholder, bind_index + 2),
    }
}

/// Normalise a list filter's `(limit, offset)`: a non-positive limit becomes
/// 100 and a negative offset becomes 0.
pub fn normalize_limit_offset(limit: i64, offset: i64) -> (r: (i64, i64))
    ensures
        r.0 == (if limit <= 0 {
            100
        } else {
            limit
        }),
        r.1 == (if offset < 0 {
            0
        } else {
            offset
        }),
{
    let l: i64 = if limit <= 0 {
        100
    } else {
        limit
    };
    let o: i64 = if offset < 0 {
        0
    } else {
        offset
    };
    (l, o)
}

// ── Summary bucket mappers ──────────────────────────────────────────────────

pub open spec fn saga_bucket_detail(status: Seq<char>) -> Seq<char> {
    "unexpected saga status '"@ + status + "' (CHECK constraint should prevent this)"@
}

pub open spec fn projection_bucket_detail(status: Seq<char>) -> Seq<char> {
    "unexpected status '"@ + status + "' (CHECK constraint should prevent this)"@
}

/// Fold one `(status, count)` row of a saga `GROUP BY status` query into the
/// running summary. An unrecognised status is a schema mismatch and leaves
/// the summary unchanged.
pub fn apply_saga_summary_bucket(
    summary: &mut SagaSummary,
    backend: &'static str,
    status: &str,
    n: i64,
) -> (r: Result<(), SystemStoreError>)
    ensures
        saga_status_parse_spec(status@) matches Some(st) ==> r is Ok && *final(summary)
            == saga_summary_with(*old(summary), st, n),
        saga_status_parse_spec(status@) is None ==> *final(summary) == *old(summary) && (r matches Err(
            SystemStoreError::SchemaMismatch { backend: b, detail },
        ) && b == backend && detail@ == saga_bucket_detail(status@)),
{
    match SagaStatus::parse(status) {
        Some(SagaStatus::Indeterminate) => summary.indeterminate = n,
        Some(SagaStatus::InProgress) => summary.in_progress = n,
        Some(SagaStatus::Pending) => summary.pending = n,
        Some(SagaStatus::Committed) => summary.committed = n,
        Some(SagaStatus::Compensated) => summary.compensated = n,
        Some(SagaStatus::Failed) => summary.failed = n,
        Some(SagaStatus::InDoubt) => summary.in_doubt = n,
        Some(SagaStatus::FailedCompensation) => summary.failed_compensation = n,
        Some(SagaStatus::ManualReview) => summary.manual_review = n,
        None => {
            return Err(
                SystemStoreError::SchemaMismatch {
                    backend,
                    detail: String::from_str("unexpected saga status '").concat(status).concat(
                        "' (CHECK constraint should prevent this)",
                    ),
                },
            );
        },
    }
    Ok(())
}

/// Fold one `(status, count)` row of a projection-task `GROUP BY status`
/// query into the running summary. An unrecognised status is a schema
/// mismatch and leaves the summary unchanged.
pub fn apply_projection_summary_bucket(
    summary: &mut ProjectionTaskSummary,
    backend: &'static str,
    status: &str,
    n: i64,
) -> (r: Result<(), SystemStoreError>)
    ensures
        projection_status_parse_spec(status@) matches Some(st) ==> r is Ok && *final(summary)
            == projection_summary_with(*old(summary), st, n),
        projection_status_parse_spec(status@) is None ==> *final(summary) == *old(summary) && (
        r matches Err(SystemStoreError::SchemaMismatch { backend: b, detail }) && b == backend
            && detail@ == projection_bucket_detail(status@)),
{
    match ProjectionTaskStatus::parse(status) {
        Some(ProjectionTaskStatus::Pending) => summary.pending = n,
        Some(ProjectionTaskStatus::InProgress) => summary.in_progress = n,
        Some(ProjectionTaskStatus::Completed) => summary.completed = n,
        Some(ProjectionTaskStatus::Failed) => summary.failed = n,
        Some(ProjectionTaskStatus::DeadLetter) => summary.dead_letter = n,
        None => {
            return Err(
                SystemStoreError::SchemaMismatch {
                    backend,
                    detail: String::from_str("unexpected status '").concat(status).concat(
                        "' (CHECK constraint should prevent this)",
                    ),
                },
            );
        },
    }
    Ok(())
}

// ── Laws ────────────────────────────────────────────────────────────────────

/// A WHERE clause binds exactly one placeholder per present filter, and the
/// `LIMIT`/`OFFSET` binds come right after them: numbered placeholders count
/// on from the filters, so the bind order the caller follows is the order
/// the SQL expects.
pub proof fn lemma_where_binds_match_present_filters(
    p: Placeholder,
    filters: Seq<(Seq<char>, bool)>,
)
    ensures
        eq_terms(p, filters).len() == present_count(filters),
        present_count(filters) <= filters.len(),
        (present_count(filters) == 0) == (where_sql_spec(p, filters).len() == 0),
{
    lemma_eq_terms_len(p, filters);
    reveal_strlit("WHERE ");
}

/// Absent filters contribute nothing: dropping a trailing absent filter
/// leaves the clause and the limit/offset positions unchanged.
pub proof fn lemma_absent_filter_is_skipped(
    p: Placeholder,
    filters: Seq<(Seq<char>, bool)>,
    column: Seq<char>,
)
    ensures
        eq_terms(p, filters.push((column, false))) == eq_terms(p, filters),
        present_count(filters.push((column, false))) == present_count(filters),
{
    assert(filters.push((column, false)).drop_last() =~= filters);
}

/// The columns of the present filters, in order.
pub open spec fn present_columns(filters: Seq<(Seq<char>, bool)>) -> Seq<Seq<char>>
    decreases filters.len(),
{
    if filters.len() == 0 {
        Seq::empty()
    } else if filters.last().1 {
        present_columns(filters.drop_last()).push(filters.last().0)
    } else {
        present_columns(filters.drop_last())
    }
}

/// The `col = <ph>` terms of a list of columns, numbered from 1.
pub open spec fn numbered_terms(p: Placeholder, cols: Seq<Seq<char>>) -> Seq<Seq<char>>
    decreases cols.len(),
{
    if cols.len() == 0 {
        Seq::empty()
    } else {
        numbered_terms(p, cols.drop_last()).push(
            cols.last() + " = "@ + placeholder_text(p, cols.len()),
        )
    }
}

proof fn lemma_terms_from_present_columns(p: Placeholder, filters: Seq<(Seq<char>, bool)>)
    ensures
        eq_terms(p, filters) == numbered_terms(p, present_columns(filters)),
        present_count(filters) == present_columns(filters).len(),
    decreases filters.len(),
{
    if filters.len() > 0 {
        lemma_terms_from_present_columns(p, filters.drop_last());
        if filters.last().1 {
            let cols = present_columns(filters);
            assert(cols.drop_last() =~= present_columns(filters.drop_last()));
        }
    }
}

/// Absent filters contribute nothing anywhere in the list: two filter
/// lists with the same present columns in the same order give the same
/// WHERE clause and the same `LIMIT`/`OFFSET` positions, however many
/// absent entries either holds and wherever they stand.
pub proof fn lemma_absent_filters_are_invisible(
    p: Placeholder,
    filters: Seq<(Seq<char>, bool)>,
    other: Seq<(Seq<char>, bool)>,
)
    requires
        present_columns(filters) == present_columns(other),
    ensures
        where_sql_spec(p, filters) == where_sql_spec(p, other),
        present_count(filters) == present_count(other),
{
    lemma_terms_from_present_columns(p, filters);
    lemma_terms_from_present_columns(p, other);
}

/// What `build_eq_where` returns depends only on the present columns: two
/// filter slices with the same present columns in the same order give the
/// same WHERE text and the same `LIMIT` and `OFFSET` placeholders.
pub proof fn lemma_build_eq_where_ignores_absent(
    p: Placeholder,
    filters: Seq<(&str, bool)>,
    other: Seq<(&str, bool)>,
)
    requires
        present_columns(filters_view(filters)) == present_columns(filters_view(other)),
    ensures
        where_sql_spec(p, filters_view(filters)) == where_sql_spec(p, filters_view(other)),
        placeholder_text(p, present_count(filters_view(filters)) + 1) == placeholder_text(
            p,
            present_count(filters_view(other)) + 1,
        ),
        placeholder_text(p, present_count(filters_view(filters)) + 2) == placeholder_text(
            p,
            present_count(filters_view(other)) + 2,
        ),
{
    lemma_absent_filters_are_invisible(p, filters_view(filters), filters_view(other));
}

/// Normalised paging is always usable: a positive limit and a non-negative
/// offset, and already-valid values pass through unchanged.
pub proof fn lemma_normalized_paging_is_valid(limit: i64, offset: i64)
    ensures
        (if limit <= 0 {
            100
        } else {
            limit
        }) > 0,
        (if offset < 0 {
            0
        } else {
            offset
        }) >= 0,
{
}

} // verus!
