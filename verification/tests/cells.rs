use canonical_store::cells::{
    cell_i64, cell_str, cell_u64, ch_i32, ch_opt_millis, get_i32, get_i64, get_opt_millis, get_text,
    opt_millis_lit, CqlCell, CqlRow, JsonCell, JsonRow,
};

fn row() -> JsonRow {
    JsonRow {
        fields: vec![
            ("seq".to_string(), JsonCell::PosInt(42)),
            ("version".to_string(), JsonCell::Str("7".to_string())),
            ("owner_id".to_string(), JsonCell::Str("owner-a".to_string())),
        ],
    }
}

#[test]
fn cell_helpers_accept_string_and_number_forms() {
    let row = row();
    assert_eq!(cell_i64(Some(&row), "seq"), 42);
    assert_eq!(cell_u64(Some(&row), "version"), 7);
    assert_eq!(cell_str(Some(&row), "owner_id"), "owner-a");
    assert_eq!(cell_i64(Some(&row), "missing"), 0);
    assert_eq!(cell_u64(None, "version"), 0);
    assert_eq!(cell_str(None, "owner_id"), "");
}

#[test]
fn cells_of_the_wrong_shape_read_as_zero() {
    let row = JsonRow {
        fields: vec![
            ("big".to_string(), JsonCell::PosInt(u64::MAX)),
            ("neg".to_string(), JsonCell::NegInt(-5)),
            ("f".to_string(), JsonCell::Float),
            ("s".to_string(), JsonCell::Str("-12".to_string())),
            ("retry".to_string(), JsonCell::PosInt(4_294_967_297)),
            ("zero".to_string(), JsonCell::Str("0".to_string())),
        ],
    };
    assert_eq!(cell_i64(Some(&row), "big"), 0);
    assert_eq!(cell_u64(Some(&row), "big"), u64::MAX);
    assert_eq!(cell_i64(Some(&row), "neg"), -5);
    assert_eq!(cell_u64(Some(&row), "neg"), 0);
    assert_eq!(cell_i64(Some(&row), "f"), 0);
    assert_eq!(cell_i64(Some(&row), "s"), -12);
    assert_eq!(cell_u64(Some(&row), "s"), 0);
    assert_eq!(cell_str(Some(&row), "neg"), "");
    assert_eq!(ch_i32(&row, "retry"), 1);
    assert_eq!(ch_opt_millis(&row, "zero"), None);
    assert_eq!(ch_opt_millis(&row, "neg"), Some(-5));
    assert_eq!(opt_millis_lit(None), 0);
    assert_eq!(opt_millis_lit(Some(1_700_000_000_000)), 1_700_000_000_000);
}

#[test]
fn cql_cells_read_tolerantly() {
    let row = CqlRow {
        columns: vec![
            Some(CqlCell::Text("abc".to_string())),
            Some(CqlCell::BigInt(4_294_967_298)),
            Some(CqlCell::Int(-3)),
            Some(CqlCell::Timestamp(1_000)),
            None,
        ],
    };
    assert_eq!(get_text(&row, 0), "abc");
    assert_eq!(get_text(&row, 1), "");
    assert_eq!(get_i32(&row, 1), 2);
    assert_eq!(get_i64(&row, 1), 4_294_967_298);
    assert_eq!(get_i64(&row, 2), -3);
    assert_eq!(get_opt_millis(&row, 3), Some(1_000));
    assert_eq!(get_opt_millis(&row, 1), Some(4_294_967_298));
    assert_eq!(get_opt_millis(&row, 4), None);
    assert_eq!(get_i64(&row, 9), 0);
}
