use canonical_store::dialect::{
    apply_projection_summary_bucket, apply_saga_summary_bucket, build_eq_where,
    normalize_limit_offset, Placeholder, SqlDialect,
};
use canonical_store::status::{ProjectionTaskSummary, SagaStatus, SagaSummary, SystemStoreError};

#[test]
fn numbered_placeholders_match_bind_order() {
    let d = SqlDialect::postgres();
    let w = build_eq_where(d, &[("tenant_id", true), ("status", true)]);
    assert_eq!(w.where_sql, "WHERE tenant_id = $1 AND status = $2");
    assert_eq!(w.limit_placeholder, "$3");
    assert_eq!(w.offset_placeholder, "$4");
}

#[test]
fn positional_placeholders_use_question_marks() {
    let w = build_eq_where(SqlDialect::mysql(), &[("tenant_id", true), ("status", true)]);
    assert_eq!(w.where_sql, "WHERE tenant_id = ? AND status = ?");
    assert_eq!(w.limit_placeholder, "?");
    assert_eq!(w.offset_placeholder, "?");
}

#[test]
fn absent_filters_are_skipped_and_renumbered() {
    let d = SqlDialect::postgres();
    let w = build_eq_where(
        d,
        &[("tenant_id", false), ("status", true), ("tx_id", false), ("correlation_id", true)],
    );
    assert_eq!(w.where_sql, "WHERE status = $1 AND correlation_id = $2");
    assert_eq!(w.limit_placeholder, "$3");
    assert_eq!(w.offset_placeholder, "$4");
}

#[test]
fn no_filters_yields_empty_where_and_first_placeholders() {
    let d = SqlDialect::postgres();
    let w = build_eq_where(d, &[("a", false), ("b", false)]);
    assert_eq!(w.where_sql, "");
    assert_eq!(w.limit_placeholder, "$1");
    assert_eq!(w.offset_placeholder, "$2");

    let w2 = build_eq_where(SqlDialect::sqlite(), &[("a", false)]);
    assert_eq!(w2.where_sql, "");
    assert_eq!(w2.limit_placeholder, "?");
    assert_eq!(w2.offset_placeholder, "?");
}

#[test]
fn normalize_limit_offset_applies_defaults() {
    assert_eq!(normalize_limit_offset(0, -5), (100, 0));
    assert_eq!(normalize_limit_offset(-1, 3), (100, 3));
    assert_eq!(normalize_limit_offset(50, 10), (50, 10));
}

#[test]
fn saga_summary_bucket_maps_every_status() {
    let mut s = SagaSummary::default();
    for st in SagaStatus::all() {
        apply_saga_summary_bucket(&mut s, "postgres", st.as_str(), 1).unwrap();
    }
    assert_eq!(s.total(), 8);
}

#[test]
fn saga_summary_bucket_rejects_unknown_status() {
    let mut s = SagaSummary::default();
    let err = apply_saga_summary_bucket(&mut s, "mysql", "bogus", 1).unwrap_err();
    assert!(matches!(err, SystemStoreError::SchemaMismatch { .. }));
}

#[test]
fn projection_summary_bucket_maps_every_status() {
    let mut s = ProjectionTaskSummary::default();
    for st in ["PENDING", "IN_PROGRESS", "COMPLETED", "FAILED", "DEAD_LETTER"] {
        apply_projection_summary_bucket(&mut s, "sqlite", st, 1).unwrap();
    }
    assert_eq!(s.total(), 5);
    let err = apply_projection_summary_bucket(&mut s, "sqlite", "WAT", 1).unwrap_err();
    assert!(matches!(err, SystemStoreError::SchemaMismatch { .. }));
}

#[test]
fn summary_bucket_sets_the_count_and_names_the_status_on_error() {
    let mut s = SagaSummary::default();
    apply_saga_summary_bucket(&mut s, "postgres", "in_doubt", 12).unwrap();
    assert_eq!(s.in_doubt, 12);
    assert_eq!(s.total(), 12);
    match apply_saga_summary_bucket(&mut s, "postgres", "bogus", 3) {
        Err(SystemStoreError::SchemaMismatch { backend, detail }) => {
            assert_eq!(backend, "postgres");
            assert_eq!(detail, "unexpected saga status 'bogus' (CHECK constraint should prevent this)");
        }
        _ => panic!("unknown status must be a schema mismatch"),
    }
    assert_eq!(s.total(), 12);
}

#[test]
fn placeholders_render_by_position() {
    assert_eq!(Placeholder::Numbered.render(12), "$12");
    assert_eq!(Placeholder::Positional.render(12), "?");
    assert_eq!(SqlDialect::postgres().placeholder(1), "$1");
}

#[test]
fn saga_statuses_round_trip_through_their_text() {
    for st in SagaStatus::all() {
        assert_eq!(SagaStatus::parse(st.as_str()), Some(st));
    }
    assert_eq!(SagaStatus::parse("in_doubt"), Some(SagaStatus::InDoubt));
    assert_eq!(SagaStatus::parse("IN_DOUBT"), None);
}
