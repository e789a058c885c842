use rats_lib::import::{complete_progress, csv_start_progress, finish_import, import_file,
    preview_csv, preview_file, start_progress, ImportError, ImportPlan};

#[test]
fn csv_import_plan_for_people() {
    let plan = import_file("people.csv", None, None).unwrap();
    let p = match plan {
        ImportPlan::Csv(p) => p,
        _ => panic!("expected a CSV plan"),
    };
    assert_eq!(p.table_name, "people");
    assert_eq!(p.drop_sql, "DROP TABLE IF EXISTS \"people\"");
    assert_eq!(p.create_sql, "CREATE TABLE \"people\" AS FROM 'people.csv'");
    assert_eq!(p.count_sql, "SELECT COUNT(*) FROM \"people\"");
}

#[test]
fn csv_import_sanitises_the_file_stem() {
    let plan = import_file("2024 Sales!.csv", None, None).unwrap();
    let p = match plan {
        ImportPlan::Csv(p) => p,
        _ => panic!("expected a CSV plan"),
    };
    assert_eq!(p.table_name, "2024_Sales");
}

#[test]
fn csv_import_escapes_the_path_literal() {
    let plan = import_file("it's.csv", Some("t".to_string()), None).unwrap();
    let p = match plan {
        ImportPlan::Csv(p) => p,
        _ => panic!("expected a CSV plan"),
    };
    assert_eq!(p.create_sql, "CREATE TABLE \"t\" AS FROM 'it''s.csv'");
}

#[test]
fn unsupported_extension_fails_the_import() {
    let err = import_file("a.txt", None, None).unwrap_err();
    assert!(err.message().contains("Unsupported"));
}

#[test]
fn excel_import_needs_workbook_bytes() {
    let err = import_file("book.xlsx", None, None).unwrap_err();
    assert!(matches!(err, ImportError::Io(_)));
}

#[test]
fn csv_preview_parses_header_and_rows() {
    let data = b"id,name,age\n1,Ada,36\n2,Lin,28\n".to_vec();
    let p = preview_csv(&data, 10).unwrap();
    assert_eq!(p.columns, vec!["id", "name", "age"]);
    assert_eq!(p.total_rows, 2);
    assert_eq!(p.rows, vec![vec!["1", "Ada", "36"], vec!["2", "Lin", "28"]]);
}

#[test]
fn csv_preview_honours_the_limit() {
    let data = b"x\n1\n2\n3\n".to_vec();
    let p = preview_csv(&data, 1).unwrap();
    assert_eq!(p.total_rows, 3);
    assert_eq!(p.rows, vec![vec!["1"]]);
}

#[test]
fn csv_preview_understands_quoting() {
    let data = b"a,b\n\"x,y\",2\n".to_vec();
    let p = preview_csv(&data, 10).unwrap();
    assert_eq!(p.rows, vec![vec!["x,y", "2"]]);
}

#[test]
fn preview_dispatches_on_the_extension() {
    let data = b"a\n1\n".to_vec();
    let p = preview_file("f.csv", None, &data).unwrap();
    assert_eq!(p.columns, vec!["a"]);
    assert!(preview_file("f.pdf", None, &data).is_err());
}

#[test]
fn finished_import_reports_the_count() {
    let r = finish_import("people".to_string(), 2);
    assert!(r.success);
    assert_eq!(r.table_name, "people");
    assert_eq!(r.rows_imported, 2);
    assert_eq!(r.message, "Successfully imported 2 rows");
}

#[test]
fn progress_events_have_the_expected_shape() {
    let s = start_progress();
    assert_eq!(s.rows_imported, 0);
    assert_eq!(s.total_rows, None);
    let c = csv_start_progress();
    assert_eq!(c.status, "Starting CSV import...");
    let done = complete_progress(7);
    assert_eq!(done.rows_imported, 7);
    assert_eq!(done.total_rows, Some(7));
    assert_eq!(done.status, "Import complete!");
}
