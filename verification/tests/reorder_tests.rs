use rats_lib::editor::{reorder_result, reorder_statements, SortColumn};

fn key(column: &str, ascending: bool) -> SortColumn {
    SortColumn { column: column.to_string(), ascending }
}

#[test]
fn empty_sort_columns_are_rejected() {
    let err = reorder_statements("t", &vec![]).unwrap_err();
    assert_eq!(err, "No sort columns specified");
}

#[test]
fn reorder_produces_the_four_statements() {
    let stmts = reorder_statements("t", &vec![key("age", true)]).unwrap();
    assert_eq!(
        stmts,
        vec![
            "DROP TABLE IF EXISTS \"t_sorted_temp\"".to_string(),
            "CREATE TABLE \"t_sorted_temp\" AS SELECT * FROM \"t\" ORDER BY \"age\" ASC"
                .to_string(),
            "DROP TABLE \"t\"".to_string(),
            "ALTER TABLE \"t_sorted_temp\" RENAME TO \"t\"".to_string(),
        ]
    );
}

#[test]
fn reorder_renders_directions_in_order() {
    let stmts = reorder_statements("people", &vec![key("age", false), key("name", true)]).unwrap();
    assert!(stmts[1].ends_with("ORDER BY \"age\" DESC, \"name\" ASC"), "{}", stmts[1]);
}

#[test]
fn reorder_rejects_bad_names() {
    assert_eq!(
        reorder_statements("bad name", &vec![key("a", true)]).unwrap_err(),
        "Invalid table name"
    );
    assert_eq!(
        reorder_statements("t", &vec![key("a\"b", true)]).unwrap_err(),
        "Invalid column name"
    );
}

#[test]
fn reorder_reply_counts_keys() {
    let r = reorder_result(2);
    assert!(r.success);
    assert_eq!(r.message, "Rows reordered by 2 column(s)");
}
