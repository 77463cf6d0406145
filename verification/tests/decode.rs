use canonical_store::cells::{
    prop_i32, prop_i64, prop_opt_millis, prop_str, CqlCell, CqlRow, JsonCell, JsonRow,
};
use canonical_store::decode::{
    ch_uuid, get_uuid, parse_iso_utc, parse_uuid_cell, parse_uuid_id, prop_uuid, trim,
    uuid_column,
};
use canonical_store::status::SystemStoreError;

const ID: &str = "550e8400-e29b-41d4-a716-446655440000";
const ID_VALUE: u128 = 0x550e8400_e29b_41d4_a716_446655440000;

fn invalid_input(r: Result<u128, SystemStoreError>) -> String {
    match r {
        Err(SystemStoreError::InvalidInput(m)) => m,
        other => panic!("expected an invalid-input error, got {other:?}"),
    }
}

#[test]
fn trimming_removes_unicode_white_space_at_both_ends() {
    assert_eq!(trim("\u{3000} a b \t\n"), "a b");
    assert_eq!(trim("   "), "");
    assert_eq!(trim("x"), "x");
}

#[test]
fn mssql_uuid_cells_are_trimmed_before_parsing() {
    assert_eq!(parse_uuid_cell(&format!("  {ID}\n")).unwrap(), ID_VALUE);
    let m = invalid_input(parse_uuid_cell("nope"));
    assert!(m.starts_with("invalid uuid 'nope' in mssql row: "), "got: {m}");
}

#[test]
fn uuid_columns_of_each_backend_name_what_failed() {
    let node = JsonRow {
        fields: vec![
            ("task_id".to_string(), JsonCell::Str(ID.to_string())),
            ("bad".to_string(), JsonCell::Str("xyz".to_string())),
            ("n".to_string(), JsonCell::PosInt(3)),
        ],
    };
    assert_eq!(ch_uuid(&node, "task_id").unwrap(), ID_VALUE);
    assert!(invalid_input(ch_uuid(&node, "bad"))
        .starts_with("clickhouse row column 'bad' is not a uuid 'xyz': "));
    assert_eq!(prop_uuid(&node, "task_id").unwrap(), ID_VALUE);
    assert_eq!(
        invalid_input(prop_uuid(&node, "n")),
        "neo4j row missing string uuid property 'n'"
    );

    let row = CqlRow { columns: vec![Some(CqlCell::Text(ID.to_string())), Some(CqlCell::Int(1))] };
    assert_eq!(get_uuid(&row, 0).unwrap(), ID_VALUE);
    assert_eq!(invalid_input(get_uuid(&row, 1)), "cassandra row missing text uuid at column 1");
    assert_eq!(invalid_input(get_uuid(&row, 7)), "cassandra row missing text uuid at column 7");

    assert_eq!(parse_uuid_id(Ok(ID), "_id").unwrap(), ID_VALUE);
    assert_eq!(
        invalid_input(parse_uuid_id(Err("field not present"), "_id")),
        "mongodb row missing string '_id': field not present"
    );
    assert!(invalid_input(uuid_column("saga_id", "s-1"))
        .starts_with("saga_id 's-1' is not a valid UUID: "));
}

#[test]
fn mssql_timestamps_read_with_or_without_an_offset() {
    assert_eq!(parse_iso_utc(Some("2026-06-02T10:15:30.123")), Some((1_780_395_330, 123_000_000)));
    assert_eq!(parse_iso_utc(Some("2026-06-02T10:15:30.1234567")), Some((1_780_395_330, 123_456_700)));
    assert_eq!(parse_iso_utc(Some(" 2026-06-02 10:15:30 ")), Some((1_780_395_330, 0)));
    assert_eq!(parse_iso_utc(Some("1996-12-19T16:39:57-08:00")), Some((851_042_397, 0)));
    assert_eq!(parse_iso_utc(Some("   ")), None);
    assert_eq!(parse_iso_utc(Some("yesterday")), None);
    assert_eq!(parse_iso_utc(None), None);
}

#[test]
fn neo4j_properties_read_numbers_only() {
    let node = JsonRow {
        fields: vec![
            ("retry".to_string(), JsonCell::PosInt(2)),
            ("text".to_string(), JsonCell::Str("5".to_string())),
            ("zero".to_string(), JsonCell::PosInt(0)),
            ("name".to_string(), JsonCell::Str("a".to_string())),
        ],
    };
    assert_eq!(prop_i64(&node, "retry"), 2);
    assert_eq!(prop_i64(&node, "text"), 0);
    assert_eq!(prop_i32(&node, "retry"), 2);
    assert_eq!(prop_opt_millis(&node, "zero"), Some(0));
    assert_eq!(prop_opt_millis(&node, "missing"), None);
    assert_eq!(prop_str(&node, "name"), "a");
    assert_eq!(prop_str(&node, "retry"), "");
}
