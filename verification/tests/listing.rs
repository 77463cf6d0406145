use canonical_store::listing::{
    list_admin_audit_page, list_migration_runs_page, list_sagas_page, page_of,
    AdminAuditListFilter, AuditListRow, MigrationRunListRow, MigrationRunsFilter, SagaListFilter,
    SagaListRow,
};
use canonical_store::selection::newest_first_selection;
use canonical_store::status::SagaStatus;

fn saga(tenant: &str, status: SagaStatus, updated: i64) -> SagaListRow {
    SagaListRow {
        tenant_id: tenant.to_string(),
        status,
        tx_id: "tx".to_string(),
        correlation_id: "c".to_string(),
        updated_at_ms: updated,
    }
}

fn saga_filter(tenant: Option<&str>, status: Option<SagaStatus>, limit: i64, offset: i64) -> SagaListFilter {
    SagaListFilter {
        tenant_id: tenant.map(|t| t.to_string()),
        status,
        tx_id: None,
        correlation_id: None,
        limit,
        offset,
    }
}

#[test]
fn saga_listing_filters_then_orders_newest_first() {
    let rows = vec![
        saga("t1", SagaStatus::Committed, 10),
        saga("t2", SagaStatus::Committed, 50),
        saga("t1", SagaStatus::Failed, 30),
        saga("t1", SagaStatus::Committed, 30),
        saga("t1", SagaStatus::Committed, 5),
    ];
    assert_eq!(list_sagas_page(&rows, &saga_filter(Some("t1"), None, 0, -3)), vec![2, 3, 0, 4]);
    assert_eq!(
        list_sagas_page(&rows, &saga_filter(Some("t1"), Some(SagaStatus::Committed), 2, 1)),
        vec![0, 4]
    );
    assert_eq!(list_sagas_page(&rows, &saga_filter(None, None, 10, 5)), Vec::<usize>::new());
}

#[test]
fn audit_and_run_listings_use_their_own_filters() {
    let audits = vec![
        AuditListRow {
            operation: "drop".to_string(),
            actor: "alice".to_string(),
            tenant_id: "t".to_string(),
            project_id: "p".to_string(),
            created_at_ms: 1,
        },
        AuditListRow {
            operation: "grant".to_string(),
            actor: "bob".to_string(),
            tenant_id: "t".to_string(),
            project_id: "p".to_string(),
            created_at_ms: 2,
        },
    ];
    let f = AdminAuditListFilter {
        operation: None,
        actor: None,
        tenant_id: Some("t".to_string()),
        project_id: None,
        limit: 100,
        offset: 0,
        redact_request_json: true,
    };
    assert_eq!(list_admin_audit_page(&audits, &f), vec![1, 0]);

    let runs = vec![
        MigrationRunListRow {
            project_id: "p".to_string(),
            state: "applied".to_string(),
            catalog_version: "v1".to_string(),
            started_at_ms: 7,
        },
        MigrationRunListRow {
            project_id: "p".to_string(),
            state: "failed".to_string(),
            catalog_version: "v2".to_string(),
            started_at_ms: 9,
        },
    ];
    let rf = MigrationRunsFilter {
        project_id: Some("p".to_string()),
        state: Some("applied".to_string()),
        catalog_version: None,
        limit: -1,
        offset: 0,
    };
    assert_eq!(list_migration_runs_page(&runs, &rf), vec![0]);
}

#[test]
fn newest_first_keeps_ties_in_scan_order_and_pages() {
    let keys = vec![3, 9, 3, 1];
    let eligible = vec![true, true, true, true];
    let all = newest_first_selection(&keys, &eligible);
    assert_eq!(all, vec![1, 0, 2, 3]);
    assert_eq!(page_of(&all, 2, 1), vec![0, 2]);
    assert_eq!(page_of(&all, 0, 0), vec![1, 0, 2, 3]);
    assert_eq!(page_of(&all, 2, 9), Vec::<usize>::new());
}
