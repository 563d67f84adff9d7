use sql_explorer::extended::{assemble_pg, decode_pg_cell, pg_kind, PgCell, PgKind};
use sql_explorer::resource::{
    assemble_resource, decode_my_cell, render_date, render_time, MyCell,
};
use sql_explorer::tabular::{assemble_tds, decode_tds_cell, TdsCell, TdsItem};
use sql_explorer::text::{push_decimal, push_zero_padded, quote_identifier};
use sql_explorer::{Error, Record, Value};

fn names(v: &[&str]) -> Vec<String> {
    v.iter().map(|s| s.to_string()).collect()
}

fn text_of(v: Option<&Value>) -> Option<String> {
    match v {
        Some(Value::Str(s)) => Some(s.clone()),
        _ => None,
    }
}

#[test]
fn float_bits_keep_finite_numbers() {
    let bits = 1.5f64.to_bits();
    assert!(matches!(Value::from_f64_bits(bits), Value::Float(b) if b == bits));
    assert!(matches!(Value::from_f64_bits(f64::NAN.to_bits()), Value::Null));
    assert!(matches!(Value::from_f64_bits(f64::INFINITY.to_bits()), Value::Null));
}

#[test]
fn record_later_duplicate_overrides() {
    let cols = names(&["a", "b", "a"]);
    let rec = Record::from_row(&cols, vec![Value::Int(1), Value::Int(2), Value::Int(3)]);
    assert_eq!(rec.entries.len(), 2);
    assert!(matches!(rec.get("a"), Some(Value::Int(3))));
    assert!(matches!(rec.get("b"), Some(Value::Int(2))));
    assert!(rec.get("c").is_none());
}

#[test]
fn record_insert_replaces_in_place() {
    let mut rec = Record::new();
    rec.insert("x".to_string(), Value::Bool(true));
    rec.insert("y".to_string(), Value::Null);
    rec.insert("x".to_string(), Value::Bool(false));
    assert_eq!(rec.entries.len(), 2);
    assert_eq!(rec.entries[0].0, "x");
    assert!(matches!(rec.get("x"), Some(Value::Bool(false))));
}

#[test]
fn decimal_rendering() {
    let mut s = String::new();
    push_decimal(&mut s, 0);
    push_decimal(&mut s, 1234567890);
    assert_eq!(s, "01234567890");
    let mut p = String::new();
    push_zero_padded(&mut p, 7, 3);
    push_zero_padded(&mut p, 12345, 2);
    assert_eq!(p, "00712345");
    let mut m = String::new();
    push_decimal(&mut m, u64::MAX);
    assert_eq!(m, u64::MAX.to_string());
}

#[test]
fn identifier_quoting_doubles_backticks() {
    assert_eq!(quote_identifier("orders"), "`orders`");
    assert_eq!(quote_identifier("a`b"), "`a``b`");
    assert_eq!(quote_identifier(""), "``");
}

#[test]
fn resource_date_and_time_text() {
    assert_eq!(render_date(2024, 1, 5, 7, 8, 9, 123), "2024-01-05 07:08:09.000123");
    assert_eq!(render_date(12, 12, 31, 23, 59, 59, 999999), "0012-12-31 23:59:59.999999");
    assert_eq!(render_time(true, 3, 4, 5, 6, 7), "-3 04:05:06.000007");
    assert_eq!(render_time(false, 0, 0, 0, 0, 0), "0 00:00:00.000000");
}

#[test]
fn resource_cells_decode() {
    assert!(matches!(decode_my_cell(MyCell::Null), Value::Null));
    assert!(matches!(decode_my_cell(MyCell::Int(-4)), Value::Int(-4)));
    assert!(matches!(decode_my_cell(MyCell::UInt(u64::MAX)), Value::UInt(u) if u == u64::MAX));
    assert!(matches!(decode_my_cell(MyCell::Double(2.5f64.to_bits())), Value::Float(b) if f64::from_bits(b) == 2.5));
    assert_eq!(text_of(Some(&decode_my_cell(MyCell::Bytes(b"hello".to_vec())))), Some("hello".to_string()));
    assert_eq!(
        text_of(Some(&decode_my_cell(MyCell::Bytes(vec![0x61, 0xff, 0x62])))),
        Some("a\u{fffd}b".to_string())
    );
    assert_eq!(
        text_of(Some(&decode_my_cell(MyCell::Date(1999, 12, 31, 0, 0, 0, 0)))),
        Some("1999-12-31 00:00:00.000000".to_string())
    );
}

#[test]
fn resource_two_statements_give_two_sets_in_order() {
    let resp = assemble_resource(vec![
        (names(&["1"]), vec![vec![MyCell::Int(1)]]),
        (names(&["x"]), vec![vec![MyCell::Bytes(b"x".to_vec())]]),
    ])
    .unwrap();
    assert_eq!(resp.results.len(), 2);
    assert_eq!(resp.results[0].columns, names(&["1"]));
    assert_eq!(resp.results[0].rows.len(), 1);
    assert!(matches!(resp.results[0].rows[0].get("1"), Some(Value::Int(1))));
    assert_eq!(resp.results[1].columns, names(&["x"]));
    assert_eq!(resp.results[1].rows.len(), 1);
    assert_eq!(text_of(resp.results[1].rows[0].get("x")), Some("x".to_string()));
    assert!(resp.messages.is_empty());
}

#[test]
fn resource_statement_without_rows_still_yields_a_set() {
    let resp = assemble_resource(vec![(Vec::new(), Vec::new()), (names(&["n"]), Vec::new())]).unwrap();
    assert_eq!(resp.results.len(), 2);
    assert!(resp.results[0].columns.is_empty());
    assert_eq!(resp.results[1].columns, names(&["n"]));
    assert!(resp.results[1].rows.is_empty());
}

#[test]
fn resource_row_of_wrong_width_is_internal_error() {
    let r = assemble_resource(vec![(names(&["a", "b"]), vec![vec![MyCell::Int(1)]])]);
    assert!(matches!(r, Err(Error::DriverInternal(_))));
}

#[test]
fn resource_insert_select_round_trip() {
    let resp = assemble_resource(vec![(
        names(&["id", "name"]),
        vec![vec![MyCell::Int(1), MyCell::Bytes(b"TestName".to_vec())]],
    )])
    .unwrap();
    let rs = &resp.results[0];
    assert_eq!(rs.columns.len(), 2);
    assert_eq!(rs.rows.len(), 1);
    assert_eq!(text_of(rs.rows[0].get("name")), Some("TestName".to_string()));
}

#[test]
fn tabular_cells_decode() {
    assert!(matches!(decode_tds_cell(TdsCell::Bit(Some(true))), Value::Bool(true)));
    assert!(matches!(decode_tds_cell(TdsCell::U8(Some(200))), Value::Int(200)));
    assert!(matches!(decode_tds_cell(TdsCell::I16(Some(-7))), Value::Int(-7)));
    assert!(matches!(decode_tds_cell(TdsCell::I32(Some(70000))), Value::Int(70000)));
    assert!(matches!(decode_tds_cell(TdsCell::I64(Some(i64::MIN))), Value::Int(i64::MIN)));
    assert!(matches!(decode_tds_cell(TdsCell::Numeric(Some(12.25f64.to_bits()))), Value::Float(b) if f64::from_bits(b) == 12.25));
    assert!(matches!(decode_tds_cell(TdsCell::F64(Some(f64::NAN.to_bits()))), Value::Null));
    assert!(matches!(decode_tds_cell(TdsCell::I32(None)), Value::Null));
    assert!(matches!(decode_tds_cell(TdsCell::Text(None)), Value::Null));
    assert_eq!(text_of(Some(&decode_tds_cell(TdsCell::Text(Some("é".to_string()))))), Some("é".to_string()));
}

#[test]
fn tabular_two_statements_give_two_sets_in_order() {
    let resp = assemble_tds(vec![
        TdsItem::Metadata(names(&[""])),
        TdsItem::Row(vec![TdsCell::I32(Some(1))]),
        TdsItem::Metadata(names(&[""])),
        TdsItem::Row(vec![TdsCell::Text(Some("x".to_string()))]),
    ])
    .unwrap();
    assert_eq!(resp.results.len(), 2);
    assert_eq!(resp.results[0].columns.len(), 1);
    assert_eq!(resp.results[0].rows.len(), 1);
    assert!(matches!(resp.results[0].rows[0].get(""), Some(Value::Int(1))));
    assert_eq!(resp.results[1].rows.len(), 1);
    assert_eq!(text_of(resp.results[1].rows[0].get("")), Some("x".to_string()));
}

#[test]
fn tabular_metadata_without_rows_keeps_columns() {
    let resp = assemble_tds(vec![TdsItem::Metadata(names(&["a", "b"]))]).unwrap();
    assert_eq!(resp.results.len(), 1);
    assert_eq!(resp.results[0].columns, names(&["a", "b"]));
    assert!(resp.results[0].rows.is_empty());
    let empty = assemble_tds(Vec::new()).unwrap();
    assert!(empty.results.is_empty());
}

#[test]
fn tabular_row_before_metadata_is_internal_error() {
    let r = assemble_tds(vec![TdsItem::Row(vec![TdsCell::I32(Some(1))])]);
    assert!(matches!(r, Err(Error::DriverInternal(_))));
    let w = assemble_tds(vec![TdsItem::Metadata(names(&["a"])), TdsItem::Row(Vec::new())]);
    assert!(matches!(w, Err(Error::DriverInternal(_))));
}

#[test]
fn extended_kinds_by_oid() {
    assert_eq!(pg_kind(16), PgKind::Bool);
    assert_eq!(pg_kind(21), PgKind::Int2);
    assert_eq!(pg_kind(23), PgKind::Int4);
    assert_eq!(pg_kind(20), PgKind::Int8);
    assert_eq!(pg_kind(700), PgKind::Float4);
    assert_eq!(pg_kind(701), PgKind::Float8);
    assert_eq!(pg_kind(25), PgKind::Text);
    assert_eq!(pg_kind(1043), PgKind::Text);
    assert_eq!(pg_kind(19), PgKind::Text);
    assert_eq!(pg_kind(114), PgKind::Unsupported);
}

#[test]
fn extended_unsupported_type_is_named() {
    let v = decode_pg_cell(PgCell::Unsupported("json".to_string()));
    assert_eq!(text_of(Some(&v)), Some("Unsupported type: json".to_string()));
    assert!(matches!(decode_pg_cell(PgCell::Int2(Some(5))), Value::Int(5)));
    assert!(matches!(decode_pg_cell(PgCell::Bool(None)), Value::Null));
}

#[test]
fn extended_empty_rows_give_no_set() {
    let resp = assemble_pg(names(&["a"]), Vec::new()).unwrap();
    assert!(resp.results.is_empty());
    let one = assemble_pg(
        names(&["a", "b"]),
        vec![vec![PgCell::Int4(Some(1)), PgCell::Text(Some("t".to_string()))], vec![
            PgCell::Int4(None),
            PgCell::Text(None),
        ]],
    )
    .unwrap();
    assert_eq!(one.results.len(), 1);
    assert_eq!(one.results[0].rows.len(), 2);
    assert_eq!(text_of(one.results[0].rows[0].get("b")), Some("t".to_string()));
    assert!(matches!(one.results[0].rows[1].get("a"), Some(Value::Null)));
    let bad = assemble_pg(names(&["a"]), vec![vec![]]);
    assert!(matches!(bad, Err(Error::DriverInternal(_))));
}

#[test]
fn resource_text_protocol_integers() {
    assert!(matches!(decode_my_cell(MyCell::SignedText(b"1".to_vec())), Value::Int(1)));
    assert!(matches!(decode_my_cell(MyCell::SignedText(b"-42".to_vec())), Value::Int(-42)));
    assert!(matches!(decode_my_cell(MyCell::SignedText(b"-9223372036854775808".to_vec())), Value::Int(i64::MIN)));
    assert!(matches!(decode_my_cell(MyCell::SignedText(b"9223372036854775807".to_vec())), Value::Int(i64::MAX)));
    assert_eq!(
        text_of(Some(&decode_my_cell(MyCell::SignedText(b"9223372036854775808".to_vec())))),
        Some("9223372036854775808".to_string())
    );
    assert!(matches!(decode_my_cell(MyCell::UnsignedText(b"18446744073709551615".to_vec())), Value::UInt(u) if u == u64::MAX));
    assert_eq!(
        text_of(Some(&decode_my_cell(MyCell::UnsignedText(b"18446744073709551616".to_vec())))),
        Some("18446744073709551616".to_string())
    );
    assert_eq!(text_of(Some(&decode_my_cell(MyCell::SignedText(b"".to_vec())))), Some(String::new()));
    assert_eq!(text_of(Some(&decode_my_cell(MyCell::SignedText(b"1x".to_vec())))), Some("1x".to_string()));
    assert_eq!(text_of(Some(&decode_my_cell(MyCell::SignedText(b"-".to_vec())))), Some("-".to_string()));
}

#[test]
fn resource_text_protocol_multiple_statements() {
    let resp = assemble_resource(vec![
        (names(&["1"]), vec![vec![MyCell::SignedText(b"1".to_vec())]]),
        (names(&["hello"]), vec![vec![MyCell::Bytes(b"hello".to_vec())]]),
    ])
    .unwrap();
    assert_eq!(resp.results.len(), 2);
    assert!(matches!(resp.results[0].rows[0].get("1"), Some(Value::Int(1))));
    assert_eq!(text_of(resp.results[1].rows[0].get("hello")), Some("hello".to_string()));
}
