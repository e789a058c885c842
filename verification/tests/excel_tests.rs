use std::io::Write;

use rats_lib::import::{import_file, preview_file, ImportPlan};
use zip::write::SimpleFileOptions;

fn col_letter(i: usize) -> char {
    (b'A' + i as u8) as char
}

fn sheet_xml(rows: &[Vec<&str>]) -> String {
    let mut body = String::new();
    for (r, row) in rows.iter().enumerate() {
        body.push_str(&format!("<row r=\"{}\">", r + 1));
        for (c, cell) in row.iter().enumerate() {
            if !cell.is_empty() {
                body.push_str(&format!(
                    "<c r=\"{}{}\" t=\"inlineStr\"><is><t>{}</t></is></c>",
                    col_letter(c),
                    r + 1,
                    cell
                ));
            }
        }
        body.push_str("</row>");
    }
    format!(
        "<?xml version=\"1.0\" encoding=\"UTF-8\" standalone=\"yes\"?>\
         <worksheet xmlns=\"http://schemas.openxmlformats.org/spreadsheetml/2006/main\">\
         <sheetData>{body}</sheetData></worksheet>"
    )
}

fn make_xlsx(rows: &[Vec<&str>]) -> Vec<u8> {
    let mut zw = zip::ZipWriter::new(std::io::Cursor::new(Vec::new()));
    let opts = SimpleFileOptions::default();
    zw.start_file("[Content_Types].xml", opts).unwrap();
    zw.write_all(
        b"<?xml version=\"1.0\" encoding=\"UTF-8\" standalone=\"yes\"?>\
          <Types xmlns=\"http://schemas.openxmlformats.org/package/2006/content-types\">\
          <Default Extension=\"rels\" ContentType=\"application/vnd.openxmlformats-package.relationships+xml\"/>\
          <Default Extension=\"xml\" ContentType=\"application/xml\"/>\
          <Override PartName=\"/xl/workbook.xml\" ContentType=\"application/vnd.openxmlformats-officedocument.spreadsheetml.sheet.main+xml\"/>\
          <Override PartName=\"/xl/worksheets/sheet1.xml\" ContentType=\"application/vnd.openxmlformats-officedocument.spreadsheetml.worksheet+xml\"/>\
          </Types>",
    )
    .unwrap();
    zw.start_file("_rels/.rels", opts).unwrap();
    zw.write_all(
        b"<?xml version=\"1.0\" encoding=\"UTF-8\" standalone=\"yes\"?>\
          <Relationships xmlns=\"http://schemas.openxmlformats.org/package/2006/relationships\">\
          <Relationship Id=\"rId1\" Type=\"http://schemas.openxmlformats.org/officeDocument/2006/relationships/officeDocument\" Target=\"xl/workbook.xml\"/>\
          </Relationships>",
    )
    .unwrap();
    zw.start_file("xl/workbook.xml", opts).unwrap();
    zw.write_all(
        b"<?xml version=\"1.0\" encoding=\"UTF-8\" standalone=\"yes\"?>\
          <workbook xmlns=\"http://schemas.openxmlformats.org/spreadsheetml/2006/main\" \
          xmlns:r=\"http://schemas.openxmlformats.org/officeDocument/2006/relationships\">\
          <sheets><sheet name=\"Sheet1\" sheetId=\"1\" r:id=\"rId1\"/></sheets></workbook>",
    )
    .unwrap();
    zw.start_file("xl/_rels/workbook.xml.rels", opts).unwrap();
    zw.write_all(
        b"<?xml version=\"1.0\" encoding=\"UTF-8\" standalone=\"yes\"?>\
          <Relationships xmlns=\"http://schemas.openxmlformats.org/package/2006/relationships\">\
          <Relationship Id=\"rId1\" Type=\"http://schemas.openxmlformats.org/officeDocument/2006/relationships/worksheet\" Target=\"worksheets/sheet1.xml\"/>\
          </Relationships>",
    )
    .unwrap();
    zw.start_file("xl/worksheets/sheet1.xml", opts).unwrap();
    zw.write_all(sheet_xml(rows).as_bytes()).unwrap();
    zw.finish().unwrap().into_inner()
}

#[test]
fn excel_import_plan_from_workbook_bytes() {
    let bytes = make_xlsx(&[
        vec!["id", "full name", "", "age"],
        vec!["1", "Ada", "x", ""],
        vec!["2", "Lin", "", "28"],
    ]);
    let plan = import_file("book.xlsx", Some("book".to_string()), Some(&bytes)).unwrap();
    let p = match plan {
        ImportPlan::Excel(p) => p,
        _ => panic!("expected an Excel plan"),
    };
    assert_eq!(p.table_name, "book");
    assert_eq!(p.drop_sql, "DROP TABLE IF EXISTS \"book\"");
    assert_eq!(
        p.create_sql,
        "CREATE TABLE \"book\" (\"id\" VARCHAR, \"full_name\" VARCHAR, \
         \"Column3\" VARCHAR, \"age\" VARCHAR)"
    );
    assert_eq!(p.insert_sql, "INSERT INTO \"book\" VALUES (?, ?, ?, ?)");
    assert_eq!(p.total_rows, 2);
    assert_eq!(
        p.rows,
        vec![
            vec![Some("1".to_string()), Some("Ada".to_string()), Some("x".to_string()), None],
            vec![Some("2".to_string()), Some("Lin".to_string()), None, Some("28".to_string())],
        ]
    );
    assert_eq!(p.progress.len(), 1);
    assert_eq!(p.progress[0].rows_imported, 2);
    assert_eq!(p.progress[0].total_rows, Some(2));
    assert_eq!(p.progress[0].status, "Finalizing import...");
}

#[test]
fn excel_import_rejects_a_sheet_without_rows() {
    let bytes = make_xlsx(&[]);
    let err = import_file("empty.xlsx", None, Some(&bytes)).unwrap_err();
    assert_eq!(err.message(), "Empty Excel file");
}

#[test]
fn excel_preview_keeps_raw_headers() {
    let bytes = make_xlsx(&[
        vec!["id", "full name"],
        vec!["1", "Ada"],
        vec!["2", "Lin"],
        vec!["3", "Mae"],
    ]);
    let p = preview_file("book.xlsx", Some(2), &bytes).unwrap();
    assert_eq!(p.columns, vec!["id", "full name"]);
    assert_eq!(p.total_rows, 3);
    assert_eq!(p.rows, vec![vec!["1", "Ada"], vec!["2", "Lin"]]);
}

#[test]
fn excel_preview_of_garbage_bytes_fails() {
    let bytes = vec![1u8, 2, 3, 4];
    assert!(preview_file("book.xlsx", None, &bytes).is_err());
}

#[test]
fn excel_plan_batches_progress_every_thousand_rows() {
    let mut rows: Vec<Vec<String>> = vec![vec!["x".to_string()]];
    for i in 0..2500 {
        rows.push(vec![format!("{i}")]);
    }
    let p = rats_lib::import::build_excel_plan("t", &rows).unwrap();
    assert_eq!(p.total_rows, 2500);
    assert_eq!(p.progress.len(), 3);
    assert_eq!(p.progress[0].rows_imported, 1000);
    assert_eq!(p.progress[0].total_rows, None);
    assert_eq!(p.progress[0].status, "Importing... 1000 rows");
    assert_eq!(p.progress[1].rows_imported, 2000);
    assert_eq!(p.progress[2].rows_imported, 2500);
    assert_eq!(p.progress[2].total_rows, Some(2500));
    assert_eq!(p.progress[2].status, "Finalizing import...");
    let mut last: usize = 0;
    for e in &p.progress {
        assert!(e.rows_imported >= last);
        last = e.rows_imported;
    }
}

#[test]
fn excel_import_of_garbage_bytes_is_an_excel_error() {
    let bytes = vec![9u8, 9, 9, 9];
    let err = import_file("b.xlsx", None, Some(&bytes)).unwrap_err();
    assert!(matches!(err, rats_lib::import::ImportError::Excel(_)));
}
