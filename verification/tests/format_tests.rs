use rats_lib::import::{detect_file_format, ImportError};

#[test]
fn detects_csv_and_excel() {
    assert_eq!(detect_file_format("people.csv").unwrap(), "csv");
    assert_eq!(detect_file_format("dir/People.CSV").unwrap(), "csv");
    assert_eq!(detect_file_format("book.xlsx").unwrap(), "excel");
    assert_eq!(detect_file_format("book.XLSM").unwrap(), "excel");
    assert_eq!(detect_file_format("book.xlsb").unwrap(), "excel");
    assert_eq!(detect_file_format("old.xls").unwrap(), "excel");
}

#[test]
fn rejects_unknown_extensions() {
    assert!(detect_file_format("a.txt").is_err());
    assert!(detect_file_format("noextension").is_err());
    assert!(detect_file_format(".bashrc").is_err());
    assert!(detect_file_format("dir.d/file").is_err());
}

#[test]
fn unsupported_format_message_names_it() {
    let err = detect_file_format("a.txt").unwrap_err();
    let msg = err.message();
    assert!(msg.contains("Unsupported"), "{msg}");
    assert_eq!(msg, "Unsupported file format");
    assert!(matches!(err, ImportError::UnsupportedFormat));
}

#[test]
fn import_error_messages_name_their_source() {
    assert_eq!(ImportError::Io("gone".to_string()).message(), "IO error: gone");
    assert_eq!(ImportError::Csv("bad".to_string()).message(), "CSV error: bad");
    assert_eq!(ImportError::Excel("bad".to_string()).message(), "Excel error: bad");
    assert_eq!(ImportError::Engine("boom".to_string()).message(), "Engine error: boom");
    assert_eq!(ImportError::Custom("just this".to_string()).message(), "just this");
}
