use sqlite_tiny::error::{Error, ErrorKind};
use sqlite_tiny::ffiext::{sqlite3_check_result, sqlite3_last_error, SQLITE_OK};
use sqlite_tiny::row::{column_type, text_value, ColumnType};
use sqlite_tiny::sqlite::{sql_text, OpenRequest, SQLITE_OPEN_CREATE, SQLITE_OPEN_FULLMUTEX, SQLITE_OPEN_READWRITE, SQLITE_OPEN_URI};
use sqlite_tiny::version;

#[test]
fn error_keeps_message_and_cause() {
    let cause = Error::new(ErrorKind::Conversion, "inner".to_string(), None);
    let error = Error::new(ErrorKind::NoRow, "outer".to_string(), Some(Box::new(cause)));
    assert_eq!(error.kind, ErrorKind::NoRow);
    assert_eq!(error.error, "outer");
    assert_eq!(error.source().expect("missing cause").error, "inner");
    assert_eq!(error.has_backtrace(), error.backtrace.is_some());
    assert_eq!(error.describe(), "outer\n caused by: inner\n\n");
    assert_eq!(Error::new(ErrorKind::NoRow, "alone".to_string(), None).describe(), "alone\n");
}

#[test]
fn engine_error_messages() {
    let error = sqlite3_last_error(19, Some("constraint failed"), Some("NOT NULL constraint failed: t.x"));
    assert_eq!(error.kind, ErrorKind::Engine(19));
    assert_eq!(error.error, "SQLite error: constraint failed (NOT NULL constraint failed: t.x)");

    let error = sqlite3_last_error(14, Some("unable to open database file"), None);
    assert_eq!(error.error, "SQLite error: unable to open database file");

    let error = sqlite3_last_error(1234, None, None);
    assert_eq!(error.error, "SQLite error: Unknown");
}

#[test]
fn result_codes_checked() {
    assert!(sqlite3_check_result(SQLITE_OK, Some("not an error"), None).is_ok());
    let error = sqlite3_check_result(1, Some("SQL logic error"), Some("no such table: t")).unwrap_err();
    assert_eq!(error.kind, ErrorKind::Engine(1));
    assert_eq!(error.error, "SQLite error: SQL logic error (no such table: t)");
}

#[test]
fn column_type_codes() {
    assert_eq!(column_type(1).expect("known code"), ColumnType::Integer);
    assert_eq!(column_type(2).expect("known code"), ColumnType::Float);
    assert_eq!(column_type(3).expect("known code"), ColumnType::Text);
    assert_eq!(column_type(4).expect("known code"), ColumnType::Blob);
    assert_eq!(column_type(5).expect("known code"), ColumnType::Null);
    let error = column_type(9).unwrap_err();
    assert_eq!(error.kind, ErrorKind::Conversion);
    assert_eq!(error.error, "Unknown SQLite column type: 9");
}

#[test]
fn invalid_utf8_text_fails() {
    let error = text_value(vec![0x66, 0xff, 0x6f]).unwrap_err();
    assert_eq!(error.kind, ErrorKind::Conversion);
    assert_eq!(error.error, "SQLite string is not valid UTF-8");
}

#[test]
fn open_requests() {
    let request = OpenRequest::new("data.db").expect("failed to prepare open");
    assert_eq!(request.location, b"data.db\0".to_vec());
    assert_eq!(request.flags, SQLITE_OPEN_READWRITE | SQLITE_OPEN_CREATE | SQLITE_OPEN_FULLMUTEX);
    assert_eq!(request.flags, 0x10006);

    let request = OpenRequest::uri("file:test.db?mode=memory").expect("failed to prepare open");
    assert_eq!(request.location, b"file:test.db?mode=memory\0".to_vec());
    assert_eq!(request.flags, SQLITE_OPEN_READWRITE | SQLITE_OPEN_URI | SQLITE_OPEN_FULLMUTEX);

    let request = OpenRequest::raw("x", 1).expect("failed to prepare open");
    assert_eq!(request.flags, 0x10001);
}

#[test]
fn query_text_is_nul_terminated() {
    assert_eq!(sql_text("SELECT 1").expect("valid query"), b"SELECT 1\0".to_vec());
    assert_eq!(sql_text("").expect("valid query"), vec![0]);
    let error = sql_text("SELECT 1;\0DROP TABLE t").unwrap_err();
    assert_eq!(error.kind, ErrorKind::MalformedInput);
    assert_eq!(error.error, "Invalid database query");
}

#[test]
fn version_number_splits() {
    assert_eq!(version(3045001), (3, 45, 1));
    assert_eq!(version(3008011), (3, 8, 11));
    assert_eq!(version(0), (0, 0, 0));
    assert_eq!(version(-3045001), (-3, -45, -1));
}
