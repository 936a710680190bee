use cornucopia::db_error::{
    DbError, PostgresError, SqliteCode, SqliteError, SQLITE_CONSTRAINT_FOREIGNKEY,
    SQLITE_CONSTRAINT_UNIQUE,
};

fn sqlite(constraint_violation: bool, extended_code: i32, message: &str) -> SqliteError {
    SqliteError {
        code: Some(SqliteCode { constraint_violation, extended_code }),
        message: String::from(message),
    }
}

fn postgres(state: Option<&str>, message: &str) -> PostgresError {
    PostgresError { sql_state: state.map(String::from), message: String::from(message) }
}

#[test]
fn extended_codes_are_those_of_sqlite() {
    assert_eq!(SQLITE_CONSTRAINT_UNIQUE, 2067);
    assert_eq!(SQLITE_CONSTRAINT_FOREIGNKEY, 787);
    assert_eq!(SQLITE_CONSTRAINT_UNIQUE, rusqlite::ffi::SQLITE_CONSTRAINT_UNIQUE);
    assert_eq!(SQLITE_CONSTRAINT_FOREIGNKEY, rusqlite::ffi::SQLITE_CONSTRAINT_FOREIGNKEY);
}

#[test]
fn sqlite_unique_constraint_is_a_duplicate() {
    assert_eq!(DbError::from(sqlite(true, 2067, "UNIQUE constraint failed")), DbError::DuplicateViolation);
}

#[test]
fn sqlite_foreign_key_constraint_is_a_foreign_key_violation() {
    assert_eq!(DbError::from(sqlite(true, 787, "FOREIGN KEY constraint failed")), DbError::ForeignKeyViolation);
}

#[test]
fn sqlite_other_constraint_keeps_its_message() {
    assert_eq!(
        DbError::from(sqlite(true, 1299, "NOT NULL constraint failed")),
        DbError::Other(String::from("NOT NULL constraint failed"))
    );
    assert_eq!(DbError::from(sqlite(true, 19, "constraint")), DbError::Other(String::from("constraint")));
}

#[test]
fn sqlite_codes_without_constraint_class_keep_the_message() {
    assert_eq!(DbError::from(sqlite(false, 2067, "busy")), DbError::Other(String::from("busy")));
    assert_eq!(DbError::from(sqlite(false, 787, "locked")), DbError::Other(String::from("locked")));
}

#[test]
fn sqlite_failure_without_codes_keeps_the_message() {
    let err = SqliteError { code: None, message: String::from("Query is not read-only") };
    assert_eq!(DbError::from(err), DbError::Other(String::from("Query is not read-only")));
}

#[test]
fn postgres_unique_violation_is_a_duplicate() {
    assert_eq!(DbError::from(postgres(Some("23505"), "db error")), DbError::DuplicateViolation);
}

#[test]
fn postgres_foreign_key_violation_is_a_foreign_key_violation() {
    assert_eq!(DbError::from(postgres(Some("23503"), "db error")), DbError::ForeignKeyViolation);
}

#[test]
fn postgres_other_state_keeps_the_message() {
    assert_eq!(
        DbError::from(postgres(Some("23502"), "not null violation")),
        DbError::Other(String::from("not null violation"))
    );
    assert_eq!(DbError::from(postgres(Some(""), "")), DbError::Other(String::new()));
    assert_eq!(
        DbError::from(postgres(Some("235050"), "longer")),
        DbError::Other(String::from("longer"))
    );
}

#[test]
fn postgres_failure_without_state_keeps_the_message() {
    assert_eq!(
        DbError::from(postgres(None, "connection closed")),
        DbError::Other(String::from("connection closed"))
    );
}

#[test]
fn state_codes_are_those_of_the_driver() {
    assert_eq!(tokio_postgres::error::SqlState::UNIQUE_VIOLATION.code(), "23505");
    assert_eq!(tokio_postgres::error::SqlState::FOREIGN_KEY_VIOLATION.code(), "23503");
}

#[test]
fn rusqlite_unique_failure_is_a_duplicate() {
    let err = rusqlite::Error::SqliteFailure(rusqlite::ffi::Error::new(2067), None);
    assert_eq!(DbError::from(err), DbError::DuplicateViolation);
}

#[test]
fn rusqlite_foreign_key_failure_is_a_foreign_key_violation() {
    let err = rusqlite::Error::SqliteFailure(
        rusqlite::ffi::Error::new(787),
        Some(String::from("FOREIGN KEY constraint failed")),
    );
    assert_eq!(DbError::from(err), DbError::ForeignKeyViolation);
}

#[test]
fn rusqlite_other_constraint_keeps_the_message() {
    let err = rusqlite::Error::SqliteFailure(
        rusqlite::ffi::Error::new(1299),
        Some(String::from("NOT NULL constraint failed: users.name")),
    );
    let expected = err.to_string();
    assert_eq!(DbError::from(err), DbError::Other(expected));
}

#[test]
fn rusqlite_code_of_another_class_keeps_the_message() {
    let failure = rusqlite::ffi::Error {
        code: rusqlite::ErrorCode::DatabaseBusy,
        extended_code: 2067,
    };
    let err = rusqlite::Error::SqliteFailure(failure, Some(String::from("database is busy")));
    assert_eq!(DbError::from(err), DbError::Other(String::from("database is busy")));
}

#[test]
fn rusqlite_failure_outside_sqlite_keeps_the_message() {
    let expected = rusqlite::Error::QueryReturnedNoRows.to_string();
    assert_eq!(DbError::from(rusqlite::Error::QueryReturnedNoRows), DbError::Other(expected));
}

#[test]
fn reading_a_rusqlite_failure_gives_codes_and_message() {
    let err = rusqlite::Error::SqliteFailure(
        rusqlite::ffi::Error::new(787),
        Some(String::from("FOREIGN KEY constraint failed")),
    );
    let read = SqliteError::read(&err);
    let code = read.code.unwrap();
    assert!(code.constraint_violation);
    assert_eq!(code.extended_code, 787);
    assert_eq!(read.message, "FOREIGN KEY constraint failed");

    let busy = rusqlite::Error::SqliteFailure(rusqlite::ffi::Error::new(5), None);
    let read = SqliteError::read(&busy);
    let code = read.code.unwrap();
    assert!(!code.constraint_violation);
    assert_eq!(code.extended_code, 5);

    let read = SqliteError::read(&rusqlite::Error::InvalidQuery);
    assert!(read.code.is_none());
    assert_eq!(read.message, rusqlite::Error::InvalidQuery.to_string());
}

#[test]
fn postgres_driver_failure_without_state_keeps_the_message() {
    let err = tokio_postgres::Error::__private_api_timeout();
    let expected = err.to_string();
    let read = PostgresError::read(&err);
    assert!(read.sql_state.is_none());
    assert_eq!(read.message, expected);
    assert_eq!(DbError::from(err), DbError::Other(expected));
}

#[test]
fn equality_compares_messages() {
    assert_eq!(DbError::Other(String::from("a")), DbError::Other(String::from("a")));
    assert_ne!(DbError::Other(String::from("a")), DbError::Other(String::from("b")));
    assert_ne!(DbError::DuplicateViolation, DbError::ForeignKeyViolation);
    assert_ne!(DbError::DuplicateViolation, DbError::Other(String::from("DuplicateViolation")));
    assert_eq!(DbError::ForeignKeyViolation.clone(), DbError::ForeignKeyViolation);
}
