//! Mapping of `sqlx` driver errors onto the store's [`DBError`].
use vstd::prelude::*;

use std::borrow::Cow;

use crate::model::DBError;
use crate::text::{has_substring, str_contains, str_equals};

verus! {

#[verifier::external_type_specification]
#[verifier::external_body]
pub struct ExSqlxError(sqlx::Error);

/// What the error mapping reads of a driver error, as plain values.
pub enum SqlxErrorInfo {
    /// The query expected a row and got none.
    RowNotFound,
    /// The database itself rejected the statement, with its SQLSTATE code, if any,
    /// and its primary message.
    Database { code: Option<String>, message: String },
    /// Any other driver error.
    Other,
}

/// The description of a driver error: which of `RowNotFound`, `Database` or any
/// other variant it is, and for a database error its SQLSTATE code and primary
/// message. It is a function of the error alone.
pub uninterp spec fn sqlx_error_info(e: sqlx::Error) -> SqlxErrorInfo;

/// Describes a driver error by telling `sqlx::Error`'s variants apart and, for a
/// database error, reading `DatabaseError::code` and `DatabaseError::message`.
///
/// The contract claims that the result is the error's description
/// `sqlx_error_info(*e)`; it says nothing of how the driver filled in the code or
/// the message.
#[verifier::external_body]
fn describe(e: &sqlx::Error) -> (info: SqlxErrorInfo)
    ensures
        info == sqlx_error_info(*e),
{
    match e {
        sqlx::Error::RowNotFound => SqlxErrorInfo::RowNotFound,
        sqlx::Error::Database(db) => SqlxErrorInfo::Database {
            code: db.code().map(Cow::into_owned),
            message: db.message().to_string(),
        },
        _ => SqlxErrorInfo::Other,
    }
}

/// The SQLSTATE code of a unique-constraint violation.
pub open spec fn unique_violation_code() -> Seq<char> {
    "23505"@
}

/// The description is a unique-constraint violation reported by the database.
pub open spec fn is_unique_violation(info: SqlxErrorInfo) -> bool {
    info matches SqlxErrorInfo::Database { code: Some(code), .. } && code@
        == unique_violation_code()
}

/// The conflict that a failed insert or update reports, read off the name of the
/// violated constraint in the database's message; `None` where it is none of the
/// known ones.
pub open spec fn register_conflict(info: SqlxErrorInfo) -> Option<DBError> {
    match info {
        SqlxErrorInfo::Database { code: Some(code), message } => {
            if code@ != unique_violation_code() {
                None
            } else if has_substring(message@, "gists_users_username_key"@) {
                Some(DBError::DuplicateUsername)
            } else if has_substring(message@, "gists_users_email_key"@) {
                Some(DBError::DuplicateEmail)
            } else if has_substring(message@, "gists_users_secret_key"@) {
                Some(DBError::DuplicateSecret)
            } else if has_substring(message@, "gists_gists_public_id_key"@) {
                Some(DBError::GistIDTaken)
            } else {
                None
            }
        },
        _ => None,
    }
}

/// The store error for a driver error `e`, described by `info`, of a statement
/// that writes account or gist data.
pub open spec fn register_error(info: SqlxErrorInfo, e: sqlx::Error) -> DBError {
    match register_conflict(info) {
        Some(conflict) => conflict,
        None => DBError::DBError(e),
    }
}

/// The store error for a driver error `e`, described by `info`, of a query that
/// expects a row; `not_found` is what a missing row means to the caller.
pub open spec fn fetch_error(info: SqlxErrorInfo, e: sqlx::Error, not_found: DBError) -> DBError {
    match info {
        SqlxErrorInfo::RowNotFound => not_found,
        _ => DBError::DBError(e),
    }
}

/// Maps the described driver error of a write onto the store's error: a unique
/// violation of a known constraint becomes the matching conflict, anything else
/// is passed on unchanged.
pub fn register_error_from(info: &SqlxErrorInfo, e: sqlx::Error) -> (r: DBError)
    ensures
        r == register_error(*info, e),
{
    match info {
        SqlxErrorInfo::Database { code: Some(code), message } => {
            if !str_equals(code.as_str(), "23505") {
                DBError::DBError(e)
            } else if str_contains(message.as_str(), "gists_users_username_key") {
                DBError::DuplicateUsername
            } else if str_contains(message.as_str(), "gists_users_email_key") {
                DBError::DuplicateEmail
            } else if str_contains(message.as_str(), "gists_users_secret_key") {
                DBError::DuplicateSecret
            } else if str_contains(message.as_str(), "gists_gists_public_id_key") {
                DBError::GistIDTaken
            } else {
                DBError::DBError(e)
            }
        },
        _ => DBError::DBError(e),
    }
}

/// Maps the described driver error of a single-row query onto the store's error.
pub fn fetch_error_from(info: &SqlxErrorInfo, e: sqlx::Error, not_found: DBError) -> (r: DBError)
    ensures
        r == fetch_error(*info, e, not_found),
{
    match info {
        SqlxErrorInfo::RowNotFound => not_found,
        _ => DBError::DBError(e),
    }
}

/// Maps a driver error of a statement that writes account or gist data.
pub fn map_register_err(e: sqlx::Error) -> (r: DBError)
    ensures
        r == register_error(sqlx_error_info(e), e),
{
    let info = describe(&e);
    let ghost e0 = e;
    let r = register_error_from(&info, e);
    assert(r == register_error(info, e0));
    r
}

/// Maps a driver error of a query that expects a row; a missing row becomes
/// `not_found`.
pub fn map_fetch_err(e: sqlx::Error, not_found: DBError) -> (r: DBError)
    ensures
        r == fetch_error(sqlx_error_info(e), e, not_found),
{
    let info = describe(&e);
    let ghost e0 = e;
    let ghost nf = not_found;
    let r = fetch_error_from(&info, e, not_found);
    assert(r == fetch_error(info, e0, nf));
    r
}

/// A write error is either one of the known conflicts or the driver error itself,
/// and it is a conflict only where the database reported a unique violation.
pub proof fn lemma_register_error_shape(info: SqlxErrorInfo, e: sqlx::Error)
    ensures
        ({
            let r = register_error(info, e);
            ||| r == DBError::DBError(e)
            ||| r is DuplicateUsername
            ||| r is DuplicateEmail
            ||| r is DuplicateSecret
            ||| r is GistIDTaken
        }),
        !(register_error(info, e) is DBError) ==> is_unique_violation(info),
{
}

/// A single-row query reports `not_found` exactly for a missing row, and passes
/// every other driver error on unchanged.
pub proof fn lemma_fetch_error_shape(info: SqlxErrorInfo, e: sqlx::Error, not_found: DBError)
    ensures
        info is RowNotFound ==> fetch_error(info, e, not_found) == not_found,
        !(info is RowNotFound) ==> fetch_error(info, e, not_found) == DBError::DBError(e),
{
}

} // verus!
