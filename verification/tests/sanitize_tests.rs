use rats_lib::import::{derive_table_name, sanitize_table_name};

#[test]
fn sanitize_replaces_and_trims() {
    assert_eq!(sanitize_table_name("2024 Sales!"), "2024_Sales");
    assert_eq!(sanitize_table_name("hello_world"), "hello_world");
    assert_eq!(sanitize_table_name("My Table"), "My_Table");
    assert_eq!(sanitize_table_name("__a__"), "a");
    assert_eq!(sanitize_table_name("a-b.c"), "a_b_c");
}

#[test]
fn sanitize_substitutes_the_default_when_nothing_survives() {
    assert_eq!(sanitize_table_name(""), "imported_data");
    assert_eq!(sanitize_table_name("!!!"), "imported_data");
    assert_eq!(sanitize_table_name("___"), "imported_data");
}

#[test]
fn sanitize_replaces_each_non_ascii_code_point() {
    assert_eq!(sanitize_table_name("héllo"), "h_llo");
}

#[test]
fn sanitize_output_is_well_formed() {
    let inputs = ["2024 Sales!", "a b c", "_x_", "Ünïcode", "9lives", "a..b"];
    for input in inputs {
        let out = sanitize_table_name(input);
        assert!(out.chars().all(|c| c.is_ascii_alphanumeric() || c == '_'), "{out}");
        assert!(!out.starts_with('_'), "{out}");
        assert!(!out.ends_with('_'), "{out}");
    }
}

#[test]
fn derive_table_name_uses_stem_or_request() {
    assert_eq!(derive_table_name("data/2024 Sales!.csv", &None), "2024_Sales");
    assert_eq!(derive_table_name("people.csv", &None), "people");
    assert_eq!(derive_table_name("a/b/c.report.csv", &None), "c_report");
    assert_eq!(derive_table_name("people.csv", &Some("My Table".to_string())), "My_Table");
}

#[test]
fn derive_table_name_falls_back() {
    assert_eq!(derive_table_name("###.csv", &None), "imported_data");
    assert_eq!(derive_table_name("dir/", &None), "imported_data");
    assert_eq!(derive_table_name("x.csv", &Some("!!!".to_string())), "imported_data");
}
