//! One taxonomy for the failures of two database drivers.

use vstd::prelude::*;
use vstd::std_specs::cmp::PartialEqSpecImpl;
use vstd::std_specs::convert::FromSpecImpl;

verus! {

/// The extended result code with which SQLite reports a violated uniqueness
/// constraint.
pub const SQLITE_CONSTRAINT_UNIQUE: i32 = 2067;

/// The extended result code with which SQLite reports a violated foreign
/// key.
pub const SQLITE_CONSTRAINT_FOREIGNKEY: i32 = 787;

/// The SQLSTATE code with which PostgreSQL reports a violated uniqueness
/// constraint.
pub open spec fn unique_violation_state() -> Seq<char> {
    "23505"@
}

/// The SQLSTATE code with which PostgreSQL reports a violated foreign key.
pub open spec fn foreign_key_violation_state() -> Seq<char> {
    "23503"@
}

/// A database failure, whichever driver reported it.
#[derive(Debug)]
pub enum DbError {
    DuplicateViolation,
    ForeignKeyViolation,
    Other(String),
}

/// Mathematical model of a [`DbError`].
pub enum DbErrorModel {
    DuplicateViolation,
    ForeignKeyViolation,
    Other(Seq<char>),
}

impl View for DbError {
    type V = DbErrorModel;

    open spec fn view(&self) -> DbErrorModel {
        match self {
            DbError::DuplicateViolation => DbErrorModel::DuplicateViolation,
            DbError::ForeignKeyViolation => DbErrorModel::ForeignKeyViolation,
            DbError::Other(message) => DbErrorModel::Other(message@),
        }
    }
}

impl Clone for DbError {
    /// A copy with the same model.
    fn clone(&self) -> (res: DbError)
        ensures
            res@ == self@,
    {
        match self {
            DbError::DuplicateViolation => DbError::DuplicateViolation,
            DbError::ForeignKeyViolation => DbError::ForeignKeyViolation,
            DbError::Other(message) => DbError::Other(message.clone()),
        }
    }
}

impl PartialEq for DbError {
    fn eq(&self, other: &DbError) -> (res: bool)
        ensures
            res == (self@ == other@),
    {
        match (self, other) {
            (DbError::DuplicateViolation, DbError::DuplicateViolation) => true,
            (DbError::ForeignKeyViolation, DbError::ForeignKeyViolation) => true,
            (DbError::Other(mine), DbError::Other(theirs)) => *mine == *theirs,
            _ => false,
        }
    }
}

impl PartialEqSpecImpl for DbError {
    open spec fn obeys_eq_spec() -> bool {
        true
    }

    open spec fn eq_spec(&self, other: &DbError) -> bool {
        self@ == other@
    }
}

impl Eq for DbError {}

/// The codes of a failure that SQLite itself reported.
#[derive(Clone, Copy, Debug)]
pub struct SqliteCode {
    /// Whether the primary result code is that of a violated constraint.
    pub constraint_violation: bool,
    /// The extended result code.
    pub extended_code: i32,
}

/// What is read of a failure of the SQLite driver.
#[derive(Debug)]
pub struct SqliteError {
    /// The codes, where SQLite itself reported the failure.
    pub code: Option<SqliteCode>,
    /// The driver's description of the failure.
    pub message: String,
}

/// What is read of a failure of the PostgreSQL driver.
#[derive(Debug)]
pub struct PostgresError {
    /// The SQLSTATE code, where the server reported the failure.
    pub sql_state: Option<String>,
    /// The driver's description of the failure.
    pub message: String,
}

/// The class of a failure of the SQLite driver.
pub open spec fn sqlite_classification(err: SqliteError) -> DbError {
    match err.code {
        Some(code) => if code.constraint_violation && code.extended_code
            == SQLITE_CONSTRAINT_UNIQUE {
            DbError::DuplicateViolation
        } else if code.constraint_violation && code.extended_code == SQLITE_CONSTRAINT_FOREIGNKEY {
            DbError::ForeignKeyViolation
        } else {
            DbError::Other(err.message)
        },
        None => DbError::Other(err.message),
    }
}

/// The class of a failure of the PostgreSQL driver.
pub open spec fn postgres_classification(err: PostgresError) -> DbError {
    match err.sql_state {
        Some(state) => if state@ == unique_violation_state() {
            DbError::DuplicateViolation
        } else if state@ == foreign_key_violation_state() {
            DbError::ForeignKeyViolation
        } else {
            DbError::Other(err.message)
        },
        None => DbError::Other(err.message),
    }
}

impl From<SqliteError> for DbError {
    /// A violated constraint with the extended code of uniqueness is a
    /// duplicate, one with the extended code of a foreign key is a foreign
    /// key violation. Any other failure keeps its message.
    fn from(err: SqliteError) -> (res: DbError)
        ensures
            res == sqlite_classification(err),
    {
        match err.code {
            Some(code) => {
                if code.constraint_violation && code.extended_code == SQLITE_CONSTRAINT_UNIQUE {
                    DbError::DuplicateViolation
                } else if code.constraint_violation && code.extended_code
                    == SQLITE_CONSTRAINT_FOREIGNKEY {
                    DbError::ForeignKeyViolation
                } else {
                    DbError::Other(err.message)
                }
            },
            None => DbError::Other(err.message),
        }
    }
}

impl FromSpecImpl<SqliteError> for DbError {
    open spec fn obeys_from_spec() -> bool {
        true
    }

    open spec fn from_spec(err: SqliteError) -> DbError {
        sqlite_classification(err)
    }
}

impl From<PostgresError> for DbError {
    /// The SQLSTATE code of a violated uniqueness constraint is a duplicate,
    /// that of a violated foreign key a foreign key violation. Any other
    /// failure keeps its message.
    fn from(err: PostgresError) -> (res: DbError)
        ensures
            res == postgres_classification(err),
    {
        match err.sql_state {
            Some(state) => {
                if state == String::from_str("23505") {
                    DbError::DuplicateViolation
                } else if state == String::from_str("23503") {
                    DbError::ForeignKeyViolation
                } else {
                    DbError::Other(err.message)
                }
            },
            None => DbError::Other(err.message),
        }
    }
}

impl FromSpecImpl<PostgresError> for DbError {
    open spec fn obeys_from_spec() -> bool {
        true
    }

    open spec fn from_spec(err: PostgresError) -> DbError {
        postgres_classification(err)
    }
}

/// What the classification of a failure of the SQLite driver comes to: a
/// violated constraint with the extended code of uniqueness is a duplicate,
/// one with the extended code of a foreign key is a foreign key violation,
/// and every other failure keeps its message as it is.
pub proof fn lemma_sqlite_classification(err: SqliteError)
    ensures
        (err.code matches Some(code) && code.constraint_violation && code.extended_code == 2067)
            ==> sqlite_classification(err) == DbError::DuplicateViolation,
        (err.code matches Some(code) && code.constraint_violation && code.extended_code == 787)
            ==> sqlite_classification(err) == DbError::ForeignKeyViolation,
        (err.code matches Some(code) && !(code.constraint_violation && (code.extended_code == 2067
            || code.extended_code == 787))) ==> sqlite_classification(err) == DbError::Other(
            err.message,
        ),
        err.code is None ==> sqlite_classification(err) == DbError::Other(err.message),
{
}

/// The two states that are classified are different states.
pub proof fn lemma_violation_states_differ()
    ensures
        unique_violation_state() != foreign_key_violation_state(),
{
    reveal_strlit("23505");
    reveal_strlit("23503");
    assert("23505"@[4] == '5');
    assert("23503"@[4] == '3');
}

/// What the classification of a failure of the PostgreSQL driver comes to:
/// the state `23505` is a duplicate, the state `23503` a foreign key
/// violation, and every other failure keeps its message as it is.
pub proof fn lemma_postgres_classification(err: PostgresError)
    ensures
        (err.sql_state matches Some(state) && state@ == "23505"@) ==> postgres_classification(err)
            == DbError::DuplicateViolation,
        (err.sql_state matches Some(state) && state@ == "23503"@) ==> postgres_classification(err)
            == DbError::ForeignKeyViolation,
        (err.sql_state matches Some(state) && state@ != "23505"@ && state@ != "23503"@)
            ==> postgres_classification(err) == DbError::Other(err.message),
        err.sql_state is None ==> postgres_classification(err) == DbError::Other(err.message),
{
    lemma_violation_states_differ();
}

/// Makes `rusqlite::Error` known as a type whose values are passed on
/// unread.
#[verifier::external_type_specification]
#[verifier::external_body]
pub struct ExRusqliteError(rusqlite::Error);

/// Makes `tokio_postgres::Error` known as a type whose values are passed on
/// unread.
#[verifier::external_type_specification]
#[verifier::external_body]
pub struct ExTokioPostgresError(tokio_postgres::Error);

/// The codes that `rusqlite::Error::sqlite_error` hands out of `err`, where
/// the failure is one that SQLite itself reported.
pub uninterp spec fn sqlite_codes_of(err: rusqlite::Error) -> Option<SqliteCode>;

/// The SQLSTATE code that `tokio_postgres::Error::code` hands out of `err`,
/// where the server reported the failure.
pub uninterp spec fn postgres_state_of(err: tokio_postgres::Error) -> Option<Seq<char>>;

/// The characters of a code that was read, if one was.
pub open spec fn state_text(state: Option<String>) -> Option<Seq<char>> {
    match state {
        Some(code) => Some(code@),
        None => None,
    }
}

/// Reads the codes of a failure of the SQLite driver.
///
/// Calls `rusqlite::Error::sqlite_error`, which hands out the codes where
/// the failure is one that SQLite itself reported, and tells whether the
/// primary code is `rusqlite::ErrorCode::ConstraintViolation`. The call
/// reads nothing but the failure, so what comes back is named by
/// [`sqlite_codes_of`]; nothing more is claimed of it.
#[verifier::external_body]
fn sqlite_code(err: &rusqlite::Error) -> (res: Option<SqliteCode>)
    ensures
        res == sqlite_codes_of(*err),
{
    match err.sqlite_error() {
        Some(failure) => Some(
            SqliteCode {
                constraint_violation: match failure.code {
                    rusqlite::ErrorCode::ConstraintViolation => true,
                    _ => false,
                },
                extended_code: failure.extended_code,
            },
        ),
        None => None,
    }
}

/// Describes a failure of the SQLite driver in words.
///
/// Calls `to_string` on the `rusqlite::Error`, that is its `Display`.
/// Nothing is claimed of the text.
#[verifier::external_body]
fn sqlite_message(err: &rusqlite::Error) -> (res: String) {
    err.to_string()
}

/// Reads the SQLSTATE code of a failure of the PostgreSQL driver.
///
/// Calls `tokio_postgres::Error::code`, which hands out the state where the
/// server reported the failure, and `tokio_postgres::error::SqlState::code`
/// for the characters of its code. The calls read nothing but the failure,
/// so what comes back is named by [`postgres_state_of`]; nothing more is
/// claimed of it.
#[verifier::external_body]
fn postgres_state(err: &tokio_postgres::Error) -> (res: Option<String>)
    ensures
        state_text(res) == postgres_state_of(*err),
{
    match err.code() {
        Some(state) => Some(state.code().to_string()),
        None => None,
    }
}

/// Describes a failure of the PostgreSQL driver in words.
///
/// Calls `to_string` on the `tokio_postgres::Error`, that is its `Display`.
/// Nothing is claimed of the text.
#[verifier::external_body]
fn postgres_message(err: &tokio_postgres::Error) -> (res: String) {
    err.to_string()
}

impl SqliteError {
    /// Reads from a failure of the SQLite driver what classification needs:
    /// the codes that the driver hands out of it, and its description.
    pub fn read(err: &rusqlite::Error) -> (res: SqliteError)
        ensures
            res.code == sqlite_codes_of(*err),
    {
        SqliteError { code: sqlite_code(err), message: sqlite_message(err) }
    }
}

impl PostgresError {
    /// Reads from a failure of the PostgreSQL driver what classification
    /// needs: the SQLSTATE code that the driver hands out of it, and its
    /// description.
    pub fn read(err: &tokio_postgres::Error) -> (res: PostgresError)
        ensures
            state_text(res.sql_state) == postgres_state_of(*err),
    {
        PostgresError { sql_state: postgres_state(err), message: postgres_message(err) }
    }
}

impl From<rusqlite::Error> for DbError {
    /// Classifies what [`SqliteError::read`] reads of `err`: a duplicate
    /// exactly where the driver hands out a violated constraint with the
    /// extended code of uniqueness, a foreign key violation exactly where it
    /// hands out one with the extended code of a foreign key, and otherwise
    /// the driver's description of the failure.
    fn from(err: rusqlite::Error) -> (res: DbError)
        ensures
            res is DuplicateViolation <==> (sqlite_codes_of(err) matches Some(code)
                && code.constraint_violation && code.extended_code == SQLITE_CONSTRAINT_UNIQUE),
            res is ForeignKeyViolation <==> (sqlite_codes_of(err) matches Some(code)
                && code.constraint_violation && code.extended_code
                == SQLITE_CONSTRAINT_FOREIGNKEY),
    {
        DbError::from(SqliteError::read(&err))
    }
}

impl FromSpecImpl<rusqlite::Error> for DbError {
    open spec fn obeys_from_spec() -> bool {
        false
    }

    open spec fn from_spec(err: rusqlite::Error) -> DbError {
        arbitrary()
    }
}

impl From<tokio_postgres::Error> for DbError {
    /// Classifies what [`PostgresError::read`] reads of `err`: a duplicate
    /// exactly where the driver hands out the state of a violated uniqueness
    /// constraint, a foreign key violation exactly where it hands out the
    /// state of a violated foreign key, and otherwise the driver's
    /// description of the failure.
    fn from(err: tokio_postgres::Error) -> (res: DbError)
        ensures
            res is DuplicateViolation <==> postgres_state_of(err) == Some(
                unique_violation_state(),
            ),
            res is ForeignKeyViolation <==> postgres_state_of(err) == Some(
                foreign_key_violation_state(),
            ),
    {
        proof {
            lemma_violation_states_differ();
        }
        DbError::from(PostgresError::read(&err))
    }
}

impl FromSpecImpl<tokio_postgres::Error> for DbError {
    open spec fn obeys_from_spec() -> bool {
        false
    }

    open spec fn from_spec(err: tokio_postgres::Error) -> DbError {
        arbitrary()
    }
}

} // verus!
