use rats_lib::engine::{assemble_query_result, query_data_sql, table_info_from_pragma};
use rats_lib::export::{csv_export_result, excel_export_plan, excel_export_result,
    export_query_to_csv_statements, export_to_csv_statements, ExcelCellKind, ExportError};
use rats_lib::sql::{describe_sql, drop_table_sql, pragma_table_info_sql};
use rats_lib::value::CellValue;
use rats_lib::AppState;

#[test]
fn csv_export_statements() {
    let (copy, count) = export_to_csv_statements("t", "/tmp/out.csv", None).unwrap();
    assert_eq!(copy, "COPY \"t\" TO '/tmp/out.csv' (FORMAT CSV, HEADER)");
    assert_eq!(count, "SELECT COUNT(*) FROM \"t\"");
    let (no_header, _) = export_to_csv_statements("t", "o.csv", Some(false)).unwrap();
    assert_eq!(no_header, "COPY \"t\" TO 'o.csv' (FORMAT CSV)");
}

#[test]
fn query_export_statements() {
    let (copy, count) = export_query_to_csv_statements("SELECT 1 AS one", "q.csv", Some(true));
    assert_eq!(copy, "COPY (SELECT 1 AS one) TO 'q.csv' (FORMAT CSV, HEADER)");
    assert_eq!(count, "SELECT COUNT(*) FROM (SELECT 1 AS one)");
}

#[test]
fn export_replies_name_the_format() {
    let c = csv_export_result("a.csv".to_string(), 3);
    assert!(c.success);
    assert_eq!(c.message, "Successfully exported 3 rows to CSV");
    assert_eq!(c.file_path, "a.csv");
    assert_eq!(c.rows_exported, 3);
    let e = excel_export_result("a.xlsx".to_string(), 4);
    assert_eq!(e.message, "Successfully exported 4 rows to Excel");
}

#[test]
fn excel_plan_dispatches_on_cell_kind() {
    let qr = assemble_query_result(
        vec!["a".to_string(), "b".to_string()],
        vec![
            vec![CellValue::Null, CellValue::Bool(true)],
            vec![CellValue::Int(3), CellValue::Float("2.5".to_string())],
            vec![CellValue::Text("hi".to_string()), CellValue::Null],
        ],
    );
    assert_eq!(qr.total_rows, 3);
    let p = excel_export_plan(&qr, None).unwrap();
    assert_eq!(p.sheet_name, "Data");
    assert_eq!(p.header, vec!["a", "b"]);
    assert!(matches!(p.cells[0][0], ExcelCellKind::Blank));
    assert!(matches!(p.cells[0][1], ExcelCellKind::Boolean(true)));
    assert!(matches!(p.cells[1][0], ExcelCellKind::Number(ref s) if s == "3"));
    assert!(matches!(p.cells[1][1], ExcelCellKind::Number(ref s) if s == "2.5"));
    assert!(matches!(p.cells[2][0], ExcelCellKind::Text(ref s) if s == "hi"));
}

#[test]
fn excel_plan_takes_the_requested_sheet_name() {
    let qr = assemble_query_result(vec![], vec![]);
    let p = excel_export_plan(&qr, Some("Report".to_string())).unwrap();
    assert_eq!(p.sheet_name, "Report");
}

#[test]
fn window_query_defaults() {
    assert_eq!(
        query_data_sql("t", None, None).unwrap(),
        "SELECT * FROM \"t\" LIMIT 1000 OFFSET 0"
    );
    assert_eq!(
        query_data_sql("t", Some(50), Some(10)).unwrap(),
        "SELECT * FROM \"t\" LIMIT 50 OFFSET 10"
    );
    assert!(query_data_sql("bad name", None, None).is_err());
}

#[test]
fn table_description_statements() {
    assert_eq!(describe_sql("t").unwrap(), "DESCRIBE \"t\"");
    assert_eq!(pragma_table_info_sql("t").unwrap(), "PRAGMA table_info('t')");
    assert_eq!(drop_table_sql("t").unwrap(), "DROP TABLE \"t\"");
}

#[test]
fn table_info_assembly() {
    let info = table_info_from_pragma(
        vec![("id".to_string(), "BIGINT".to_string()), ("name".to_string(), "VARCHAR".to_string())],
        2,
    );
    assert_eq!(info.row_count, 2);
    assert_eq!(info.columns.len(), 2);
    assert_eq!(info.columns[0].name, "id");
    assert_eq!(info.columns[0].data_type, "BIGINT");
    assert_eq!(info.columns[1].name, "name");
}

#[test]
fn session_setup_statements() {
    let s = AppState::new();
    assert_eq!(s.engine_setup, vec!["SET memory_limit='4GB'", "SET threads=4"]);
}

#[test]
fn export_error_messages_name_their_source() {
    assert_eq!(ExportError::Io("gone".to_string()).message(), "IO error: gone");
    assert_eq!(ExportError::Engine("boom".to_string()).message(), "Engine error: boom");
    assert_eq!(ExportError::Excel("bad".to_string()).message(), "Excel error: bad");
    assert_eq!(ExportError::Custom("just this".to_string()).message(), "just this");
}
