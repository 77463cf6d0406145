use canonical_store::audit::{
    chain_head_outcome, chain_head_round, verify_continues, verify_page, verify_step, ChainScan,
    HeadWrite, PageVerdict, RowCheck, VerifyStep,
};
use canonical_store::dialect::{build_eq_where, SqlDialect};
use canonical_store::status::{ProjectionTaskSummary, SagaSummary, SystemStoreError};
use canonical_store::token::seq_durability_token;

fn linked(h: &str) -> RowCheck<&'static str> {
    RowCheck::Linked(h.to_string())
}

fn scan(checked: i64, offset: i64, last: &str) -> ChainScan {
    ChainScan { checked, offset, last_hash: last.to_string() }
}

/// Runs a whole paged verification over an intact log whose rows hash to
/// `hashes`, the way a store drives it: `verify_step` for the page,
/// then `verify_page` on what the log holds there.
fn run_intact_scan(hashes: &[&str], limit: Option<i64>, page_size: i64) -> (i64, String) {
    let mut s = ChainScan::start();
    loop {
        let page = match verify_step(limit, s.checked, s.offset, page_size) {
            VerifyStep::Done => return (s.checked, s.last_hash),
            VerifyStep::Fetch { offset, page } => {
                assert_eq!(offset, s.offset);
                page
            }
        };
        let from = s.offset as usize;
        let to = std::cmp::min(hashes.len(), from + page as usize);
        let checks: Vec<RowCheck<&'static str>> = hashes[from..to].iter().map(|h| linked(h)).collect();
        match verify_page(s, page, checks) {
            PageVerdict::NextPage(next) => s = next,
            PageVerdict::Passed { checked, last_hash } => return (checked, last_hash),
            PageVerdict::Tampered(_) | PageVerdict::DecodeError(_) => panic!("intact log"),
        }
    }
}

#[test]
fn full_intact_page_asks_for_the_next_one() {
    let v = verify_page(scan(3, 3, "h3"), 2, vec![linked("h4"), linked("h5")]);
    match v {
        PageVerdict::NextPage(s) => {
            assert_eq!(s.checked, 5);
            assert_eq!(s.offset, 5);
            assert_eq!(s.last_hash, "h5");
        }
        _ => panic!("a full intact page goes on"),
    }
}

#[test]
fn short_intact_page_ends_the_scan() {
    match verify_page(scan(0, 0, ""), 5, vec![linked("a"), linked("b")]) {
        PageVerdict::Passed { checked, last_hash } => {
            assert_eq!(checked, 2);
            assert_eq!(last_hash, "b");
        }
        _ => panic!("a short page ends the log"),
    }
}

#[test]
fn empty_page_passes_with_the_scan_so_far() {
    match verify_page::<&str>(scan(7, 7, "h7"), 3, vec![]) {
        PageVerdict::Passed { checked, last_hash } => {
            assert_eq!(checked, 7);
            assert_eq!(last_hash, "h7");
        }
        _ => panic!("an empty page passes"),
    }
}

#[test]
fn first_broken_row_decides() {
    let checks = vec![
        linked("a"),
        RowCheck::Tampered("row 1 breaks the chain"),
        RowCheck::Undecodable("bad audit_id".to_string()),
    ];
    match verify_page(scan(0, 0, ""), 3, checks) {
        PageVerdict::Tampered(r) => assert_eq!(r, "row 1 breaks the chain"),
        _ => panic!("the tamper comes first"),
    }
    let checks = vec![
        RowCheck::Undecodable("bad audit_id".to_string()),
        RowCheck::Tampered("later"),
    ];
    match verify_page(scan(0, 0, ""), 3, checks) {
        PageVerdict::DecodeError(m) => assert_eq!(m, "bad audit_id"),
        _ => panic!("the decode error comes first"),
    }
}

#[test]
fn page_size_does_not_change_the_report() {
    let hashes = ["h1", "h2", "h3", "h4", "h5"];
    for page_size in [1, 2, 3, 5, 1000] {
        assert_eq!(run_intact_scan(&hashes, None, page_size), (5, "h5".to_string()));
        assert_eq!(run_intact_scan(&hashes, Some(2), page_size), (2, "h2".to_string()));
        assert_eq!(run_intact_scan(&hashes, Some(0), page_size), (5, "h5".to_string()));
    }
    assert_eq!(run_intact_scan(&[], None, 4), (0, String::new()));
    assert!(verify_continues(2, 2));
    assert!(!verify_continues(1, 2));
}

#[test]
fn chain_head_round_links_to_the_head_it_read() {
    let fresh = chain_head_round(1, None).unwrap();
    assert_eq!(fresh.write, HeadWrite::Seed);
    assert_eq!(fresh.previous_hash, "");
    let next = chain_head_round(64, Some("abc")).unwrap();
    assert_eq!(next.write, HeadWrite::Advance);
    assert_eq!(next.previous_hash, "abc");
    match chain_head_round(65, Some("abc")) {
        Err(SystemStoreError::Io { backend, source }) => {
            assert_eq!(backend, "cassandra");
            assert_eq!(source, "append_admin_audit: chain-head CAS did not converge");
        }
        _ => panic!("past the cap the loop gives up"),
    }
}

#[test]
fn chain_head_outcome_keeps_the_link_only_when_applied() {
    let r = chain_head_round(1, Some("prev")).unwrap();
    assert_eq!(
        chain_head_outcome(r, "cur".to_string(), true),
        Some(("prev".to_string(), "cur".to_string()))
    );
    let r = chain_head_round(2, Some("prev")).unwrap();
    assert_eq!(chain_head_outcome(r, "cur".to_string(), false), None);
}

#[test]
fn summary_totals_add_negative_counts() {
    let mut s = SagaSummary::default();
    s.pending = 5;
    s.failed = -2;
    assert_eq!(s.total(), 3);
    let mut p = ProjectionTaskSummary::default();
    p.completed = -4;
    p.dead_letter = 1;
    assert_eq!(p.total(), -3);
}

#[test]
fn absent_filters_do_not_change_the_where_clause() {
    let d = SqlDialect::postgres();
    let a = build_eq_where(d, &[("x", false), ("tenant_id", true), ("y", false), ("status", true)]);
    let b = build_eq_where(d, &[("tenant_id", true), ("status", true), ("zzz", false)]);
    assert_eq!(a.where_sql, b.where_sql);
    assert_eq!(a.limit_placeholder, b.limit_placeholder);
    assert_eq!(a.offset_placeholder, b.offset_placeholder);
    assert_eq!(a.limit_placeholder, "$3");
    assert_eq!(a.offset_placeholder, "$4");
}

#[test]
fn extreme_sequences_render_in_decimal() {
    assert_eq!(seq_durability_token("neo4j", i64::MIN).value, "-9223372036854775808");
    assert_eq!(seq_durability_token("neo4j", i64::MAX).value, "9223372036854775807");
    assert_eq!(seq_durability_token("neo4j", 0).value, "0");
}
