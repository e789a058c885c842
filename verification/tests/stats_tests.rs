use rats_lib::statistics::{assemble_column_statistics, assemble_table_statistics,
    is_numeric_type, stats_query_sql};
use rats_lib::value::CellValue;

#[test]
fn numeric_classification_is_case_insensitive() {
    assert!(is_numeric_type("BIGINT"));
    assert!(is_numeric_type("DOUBLE"));
    assert!(is_numeric_type("decimal(10,2)"));
    assert!(is_numeric_type("float4"));
    assert!(is_numeric_type("numeric"));
    assert!(!is_numeric_type("VARCHAR"));
    assert!(!is_numeric_type("DATE"));
    assert!(!is_numeric_type("BOOLEAN"));
}

#[test]
fn numeric_stats_query_text() {
    let sql = stats_query_sql("t", "x", "BIGINT").unwrap();
    assert_eq!(
        sql,
        "SELECT COUNT(\"x\") as count, COUNT(*) - COUNT(\"x\") as null_count, \
         COUNT(DISTINCT \"x\") as distinct_count, MIN(\"x\")::VARCHAR as min_val, \
         MAX(\"x\")::VARCHAR as max_val, AVG(\"x\") as mean, MEDIAN(\"x\") as median, \
         STDDEV_POP(\"x\") as std_dev, VAR_POP(\"x\") as variance, \
         PERCENTILE_CONT(0.25) WITHIN GROUP (ORDER BY \"x\") as q25, \
         PERCENTILE_CONT(0.75) WITHIN GROUP (ORDER BY \"x\") as q75 FROM \"t\""
    );
}

#[test]
fn non_numeric_stats_query_text() {
    let sql = stats_query_sql("t", "name", "VARCHAR").unwrap();
    assert!(sql.contains("NULL as mean, NULL as median, NULL as std_dev"), "{sql}");
    assert!(sql.starts_with("SELECT COUNT(\"name\") as count"), "{sql}");
    assert!(sql.ends_with("FROM \"t\""), "{sql}");
}

fn one_to_five_stats_row() -> Vec<CellValue> {
    vec![
        CellValue::Int(5),
        CellValue::Int(0),
        CellValue::Int(5),
        CellValue::Text("1".to_string()),
        CellValue::Text("5".to_string()),
        CellValue::Float("3".to_string()),
        CellValue::Float("3".to_string()),
        CellValue::Float("1.4142135623730951".to_string()),
        CellValue::Float("2".to_string()),
        CellValue::Float("2".to_string()),
        CellValue::Float("4".to_string()),
    ]
}

#[test]
fn statistics_of_one_to_five() {
    let s = assemble_column_statistics("x", "BIGINT", &one_to_five_stats_row()).unwrap();
    assert_eq!(s.column_name, "x");
    assert_eq!(s.data_type, "BIGINT");
    assert_eq!(s.count, 5);
    assert_eq!(s.null_count, 0);
    assert_eq!(s.distinct_count, 5);
    assert_eq!(s.min.as_deref(), Some("1"));
    assert_eq!(s.max.as_deref(), Some("5"));
    assert_eq!(s.mean.as_deref(), Some("3"));
    assert_eq!(s.median.as_deref(), Some("3"));
    assert_eq!(s.q25.as_deref(), Some("2"));
    assert_eq!(s.q75.as_deref(), Some("4"));
    let std_dev: f64 = s.std_dev.unwrap().parse().unwrap();
    assert!((std_dev - 2.0f64.sqrt()).abs() < 1e-9);
}

#[test]
fn statistics_are_mutually_consistent() {
    let s = assemble_column_statistics("x", "BIGINT", &one_to_five_stats_row()).unwrap();
    let total = assemble_table_statistics("t".to_string(), 5, vec![s.clone()]);
    assert_eq!(total.total_columns, 1);
    assert_eq!(s.count + s.null_count, total.total_rows);
    let q25: f64 = s.q25.unwrap().parse().unwrap();
    let median: f64 = s.median.unwrap().parse().unwrap();
    let q75: f64 = s.q75.unwrap().parse().unwrap();
    assert!(q25 <= median && median <= q75);
    let mean: f64 = s.mean.unwrap().parse().unwrap();
    let sum = 1.0 + 2.0 + 3.0 + 4.0 + 5.0;
    assert!((mean - sum / s.count as f64).abs() < 1e-9);
}

#[test]
fn integer_slots_are_rendered_as_decimal_text() {
    let mut row = one_to_five_stats_row();
    row[5] = CellValue::Int(3);
    row[6] = CellValue::Null;
    let s = assemble_column_statistics("x", "INTEGER", &row).unwrap();
    assert_eq!(s.mean.as_deref(), Some("3"));
    assert_eq!(s.median, None);
}

#[test]
fn unexpected_row_shapes_are_rejected() {
    assert!(assemble_column_statistics("x", "BIGINT", &vec![]).is_err());
    let mut row = one_to_five_stats_row();
    row[0] = CellValue::Text("5".to_string());
    assert!(assemble_column_statistics("x", "BIGINT", &row).is_err());
    let mut row2 = one_to_five_stats_row();
    row2[5] = CellValue::Bool(true);
    assert!(assemble_column_statistics("x", "BIGINT", &row2).is_err());
}
