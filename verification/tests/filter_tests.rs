use rats_lib::statistics::{build_condition_clause, create_filtered_view_statements,
    filter_data_sql, where_clause, FilterCondition};
use rats_lib::value::{quote_literal, CellValue};

fn cond(column: &str, operator: &str, value: CellValue) -> FilterCondition {
    FilterCondition { column: column.to_string(), operator: operator.to_string(), value }
}

#[test]
fn filter_window_over_one_condition() {
    let sql = filter_data_sql("t", &vec![cond("x", ">=", CellValue::Int(3))], None, None).unwrap();
    assert_eq!(sql, "SELECT * FROM \"t\" WHERE \"x\" >= 3 LIMIT 1000 OFFSET 0");
}

#[test]
fn filter_window_without_conditions() {
    let sql = filter_data_sql("t", &vec![], Some(50), Some(10)).unwrap();
    assert_eq!(sql, "SELECT * FROM \"t\"  LIMIT 50 OFFSET 10");
}

#[test]
fn conditions_are_joined_with_and() {
    let w = where_clause(&vec![
        cond("a", "=", CellValue::Int(1)),
        cond("b", "<", CellValue::Float("2.5".to_string())),
    ])
    .unwrap();
    assert_eq!(w, "WHERE \"a\" = 1 AND \"b\" < 2.5");
}

#[test]
fn in_condition_takes_an_array() {
    let arr = CellValue::Array(vec![
        CellValue::Text("a".to_string()),
        CellValue::Text("b".to_string()),
        CellValue::Int(3),
    ]);
    let c = build_condition_clause(&cond("c", "in", arr)).unwrap();
    assert_eq!(c, "\"c\" IN ('a', 'b', 3)");
}

#[test]
fn like_condition_escapes_quotes() {
    let c = build_condition_clause(&cond(
        "name",
        "like",
        CellValue::Text("O'Brien%".to_string()),
    ))
    .unwrap();
    assert_eq!(c, "\"name\" LIKE 'O''Brien%'");
}

#[test]
fn null_bool_and_negative_literals() {
    assert_eq!(quote_literal(&CellValue::Null).unwrap(), "NULL");
    assert_eq!(quote_literal(&CellValue::Bool(true)).unwrap(), "true");
    assert_eq!(quote_literal(&CellValue::Bool(false)).unwrap(), "false");
    assert_eq!(quote_literal(&CellValue::Int(-42)).unwrap(), "-42");
    assert_eq!(
        quote_literal(&CellValue::Int(i64::MIN)).unwrap(),
        "-9223372036854775808"
    );
    assert_eq!(quote_literal(&CellValue::Float("1.5e-3".to_string())).unwrap(), "1.5e-3");
}

#[test]
fn malformed_float_text_is_rejected() {
    assert_eq!(
        quote_literal(&CellValue::Float("abc".to_string())).unwrap_err(),
        "Invalid numeric literal"
    );
    assert!(quote_literal(&CellValue::Float("1.2.3".to_string())).is_err());
    assert!(quote_literal(&CellValue::Float("1; DROP TABLE t".to_string())).is_err());
    assert!(quote_literal(&CellValue::Float("".to_string())).is_err());
    assert_eq!(
        quote_literal(&CellValue::Array(vec![])).unwrap_err(),
        "Array value is only allowed with IN"
    );
}

#[test]
fn operator_outside_the_closed_set_is_rejected() {
    assert!(build_condition_clause(&cond("x", "~", CellValue::Int(1))).is_err());
    assert!(build_condition_clause(&cond("x", "= 1 OR 1", CellValue::Int(1))).is_err());
}

#[test]
fn in_requires_array_and_array_requires_in() {
    assert!(build_condition_clause(&cond("x", "IN", CellValue::Int(1))).is_err());
    let arr = CellValue::Array(vec![CellValue::Int(1)]);
    assert!(build_condition_clause(&cond("x", "=", arr)).is_err());
}

#[test]
fn condition_column_must_be_quotable() {
    let err = build_condition_clause(&cond("x\" OR 1=1 --", "=", CellValue::Int(1))).unwrap_err();
    assert_eq!(err, "Invalid column name");
}

#[test]
fn filtered_view_statements() {
    let stmts =
        create_filtered_view_statements("src_t", "v", &vec![cond("x", ">", CellValue::Int(0))])
            .unwrap();
    assert_eq!(stmts[0], "DROP VIEW IF EXISTS \"v\"");
    assert_eq!(stmts[1], "CREATE VIEW \"v\" AS SELECT * FROM \"src_t\" WHERE \"x\" > 0");
}
