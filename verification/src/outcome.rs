//! What each store operation answers, given the outcome of its query.
//!
//! A query's outcome is what the driver handed back: the fetched value or row(s),
//! the number of rows a statement affected, or the driver's error. Every function
//! here is total on the outcomes it accepts; those that read view rows need every
//! row to carry the columns the view never leaves empty.
use vstd::prelude::*;

use crate::errors::{fetch_error, map_fetch_err, map_register_err, register_error, sqlx_error_info};
use crate::model::{Creds, DBError, DBResult, Gist, GistComment, Password};
use crate::rows::{
    reached_complete, all_visible, comments_of, gists_of, rows_to_comments, rows_to_gists,
    InnerGist, InnerGistComment,
};

verus! {

/// The answer of a query that expects a row: the row, or the mapped driver error,
/// where a missing row means `not_found`.
pub fn fetch_one<T>(fetched: Result<T, sqlx::Error>, not_found: DBError) -> (r: DBResult<T>)
    ensures
        match fetched {
            Ok(v) => r == Ok::<T, DBError>(v),
            Err(e) => r == Err::<T, DBError>(fetch_error(sqlx_error_info(e), e, not_found)),
        },
{
    match fetched {
        Ok(v) => Ok(v),
        Err(e) => Err(map_fetch_err(e, not_found)),
    }
}

/// Login by email: the account's credentials, or `AccountNotFound` for a missing
/// row.
pub fn email_login(fetched: Result<Creds, sqlx::Error>) -> (r: DBResult<Creds>)
    ensures
        match fetched {
            Ok(v) => r == Ok::<Creds, DBError>(v),
            Err(e) => r == Err::<Creds, DBError>(fetch_error(sqlx_error_info(e), e, DBError::AccountNotFound),
                ),
        },
{
    fetch_one(fetched, DBError::AccountNotFound)
}

/// Login by username: the account's password, or `AccountNotFound` for a missing
/// row.
pub fn username_login(fetched: Result<Password, sqlx::Error>) -> (r: DBResult<Password>)
    ensures
        match fetched {
            Ok(v) => r == Ok::<Password, DBError>(v),
            Err(e) => r == Err::<Password, DBError>(fetch_error(sqlx_error_info(e), e, DBError::AccountNotFound),
                ),
        },
{
    fetch_one(fetched, DBError::AccountNotFound)
}

/// An account's secret, or `AccountNotFound` for a missing row.
pub fn get_secret(fetched: Result<String, sqlx::Error>) -> (r: DBResult<String>)
    ensures
        match fetched {
            Ok(v) => r == Ok::<String, DBError>(v),
            Err(e) => r == Err::<String, DBError>(fetch_error(sqlx_error_info(e), e, DBError::AccountNotFound),
                ),
        },
{
    fetch_one(fetched, DBError::AccountNotFound)
}

/// The answer of a statement that writes account or gist data (a registration, a
/// new gist or comment, a gist's deletion): success whatever the number of rows
/// it touched, else the driver error with unique violations mapped to conflicts.
pub fn written(executed: Result<u64, sqlx::Error>) -> (r: DBResult<()>)
    ensures
        match executed {
            Ok(_) => r == Ok::<(), DBError>(()),
            Err(e) => r == Err::<(), DBError>(register_error(sqlx_error_info(e), e)),
        },
{
    match executed {
        Ok(_) => Ok(()),
        Err(e) => Err(map_register_err(e)),
    }
}

/// The answer of a statement that changes one column of the account named in it
/// (its email, username or secret): `AccountNotFound` where no row was touched,
/// else the driver error with unique violations mapped to conflicts.
pub fn account_updated(executed: Result<u64, sqlx::Error>) -> (r: DBResult<()>)
    ensures
        match executed {
            Ok(n) => if n == 0 {
                r matches Err(DBError::AccountNotFound)
            } else {
                r == Ok::<(), DBError>(())
            },
            Err(e) => r == Err::<(), DBError>(register_error(sqlx_error_info(e), e)),
        },
{
    match executed {
        Ok(n) => if n == 0 {
            Err(DBError::AccountNotFound)
        } else {
            Ok(())
        },
        Err(e) => Err(map_register_err(e)),
    }
}

/// The answer of a password change: `AccountNotFound` where no row was touched,
/// else the driver error unchanged.
pub fn update_password(executed: Result<u64, sqlx::Error>) -> (r: DBResult<()>)
    ensures
        match executed {
            Ok(n) => if n == 0 {
                r matches Err(DBError::AccountNotFound)
            } else {
                r == Ok::<(), DBError>(())
            },
            Err(e) => r == Err::<(), DBError>(DBError::DBError(e)),
        },
{
    match executed {
        Ok(n) => if n == 0 {
            Err(DBError::AccountNotFound)
        } else {
            Ok(())
        },
        Err(e) => Err(DBError::DBError(e)),
    }
}

/// The answer of a deletion of an account: success whatever the
/// number of rows it touched, else the driver error unchanged.
pub fn deleted(executed: Result<u64, sqlx::Error>) -> (r: DBResult<()>)
    ensures
        match executed {
            Ok(_) => r == Ok::<(), DBError>(()),
            Err(e) => r == Err::<(), DBError>(DBError::DBError(e)),
        },
{
    match executed {
        Ok(_) => Ok(()),
        Err(e) => Err(DBError::DBError(e)),
    }
}

/// The answer of an existence check (of an email, a username, a gist or a
/// visibility): true exactly where the database said true, else the driver error
/// unchanged.
pub fn existence(fetched: Result<Option<bool>, sqlx::Error>) -> (r: DBResult<bool>)
    ensures
        match fetched {
            Ok(found) => r == Ok::<bool, DBError>(found == Some(true)),
            Err(e) => r == Err::<bool, DBError>(DBError::DBError(e)),
        },
{
    match fetched {
        Ok(found) => {
            let mut found_true = false;
            if let Some(x) = found {
                if x {
                    found_true = true;
                }
            }
            Ok(found_true)
        },
        Err(e) => Err(DBError::DBError(e)),
    }
}

/// One gist by its public ID: the row's gist, `GistNotFound` for a missing row.
pub fn get_gist(fetched: Result<InnerGist, sqlx::Error>) -> (r: DBResult<Gist>)
    requires
        fetched matches Ok(row) ==> row.complete(),
    ensures
        match fetched {
            Ok(row) => match row.parsed_visibility() {
                Some(v) => r == Ok::<Gist, DBError>(row.gist_with(v)),
                None => r matches Err(DBError::UnknownVisibilitySpecifier(t)) && t@
                    == row.visibility->0@,
            },
            Err(e) => r == Err::<Gist, DBError>(fetch_error(sqlx_error_info(e), e, DBError::GistNotFound),
                ),
        },
{
    match fetched {
        Ok(row) => row.to_gist(),
        Err(e) => Err(map_fetch_err(e, DBError::GistNotFound)),
    }
}

/// A user's gists (all of them, the public ones, or the public and unlisted ones,
/// as the query chose): the rows' gists in the order fetched, or the first
/// unknown visibility name met.
pub fn user_gists(fetched: Result<Vec<InnerGist>, sqlx::Error>) -> (r: DBResult<Vec<Gist>>)
    requires
        fetched matches Ok(rows) ==> reached_complete(rows@),
    ensures
        match fetched {
            Ok(rows) => {
                &&& r is Ok <==> all_visible(rows@)
                &&& r matches Ok(gists) ==> gists@ == gists_of(rows@)
                &&& r matches Err(e) ==> exists|i: int|
                    #![trigger rows@[i]]
                    {
                        &&& 0 <= i < rows@.len()
                        &&& rows@[i].parsed_visibility() is None
                        &&& all_visible(rows@.take(i))
                        &&& e matches DBError::UnknownVisibilitySpecifier(t) && t@
                            == rows@[i].visibility->0@
                    }
            },
            Err(e) => r == Err::<Vec<Gist>, DBError>(fetch_error(sqlx_error_info(e), e, DBError::GistNotFound),
                ),
        },
{
    match fetched {
        Ok(rows) => rows_to_gists(rows),
        Err(e) => Err(map_fetch_err(e, DBError::GistNotFound)),
    }
}

/// Whether `id` is in the range of stored comment IDs, so that a comment query
/// runs for it.
pub open spec fn queried(id: i64) -> bool {
    i32::MIN <= id <= i32::MAX
}

/// The database ID that a comment ID stands for: comment IDs are stored as
/// 32-bit integers, so an ID outside their range names no comment.
pub fn comment_id(id: i64) -> (r: Option<i32>)
    ensures
        r == (if queried(id) {
            Some(id as i32)
        } else {
            None::<i32>
        }),
{
    if i32::MIN as i64 <= id && id <= i32::MAX as i64 {
        Some(id as i32)
    } else {
        None
    }
}

/// The comments on a gist: the rows' comments in the order fetched.
pub fn get_comments_on_gist(fetched: Result<Vec<InnerGistComment>, sqlx::Error>) -> (r: DBResult<
    Vec<GistComment>,
>)
    requires
        fetched matches Ok(rows) ==> forall|i: int|
            0 <= i < rows@.len() ==> (#[trigger] rows@[i]).complete(),
    ensures
        match fetched {
            Ok(rows) => r matches Ok(comments) && comments@ == comments_of(rows@),
            Err(e) => r == Err::<Vec<GistComment>, DBError>(fetch_error(sqlx_error_info(e), e, DBError::CommentNotFound),
                ),
        },
{
    match fetched {
        Ok(rows) => Ok(rows_to_comments(rows)),
        Err(e) => Err(map_fetch_err(e, DBError::CommentNotFound)),
    }
}

/// One comment by its ID. `fetched` is the outcome of the lookup, run exactly
/// where `comment_id` gave a stored ID: an ID outside their range names no
/// comment, so it answers `CommentNotFound`; otherwise the row's comment, and
/// `CommentNotFound` for a missing row.
pub fn get_comment_by_id(id: i64, fetched: Option<Result<InnerGistComment, sqlx::Error>>) -> (r:
    DBResult<GistComment>)
    requires
        fetched is Some <==> queried(id),
        fetched matches Some(Ok(row)) ==> row.complete(),
    ensures
        match fetched {
            None => r matches Err(DBError::CommentNotFound),
            Some(Ok(row)) => r == Ok::<GistComment, DBError>(row.comment_of()),
            Some(Err(e)) => r == Err::<GistComment, DBError>(
                fetch_error(sqlx_error_info(e), e, DBError::CommentNotFound),
            ),
        },
        !queried(id) ==> r matches Err(DBError::CommentNotFound),
{
    match fetched {
        None => Err(DBError::CommentNotFound),
        Some(Ok(row)) => Ok(GistComment::from(row)),
        Some(Err(e)) => Err(map_fetch_err(e, DBError::CommentNotFound)),
    }
}

/// The deletion of a comment by its ID. `executed` is the outcome of the
/// deletion, issued exactly where `comment_id` gave a stored ID: an ID outside
/// their range names no comment, so nothing is deleted and the answer is success;
/// otherwise success whatever the number of rows touched, else the driver error
/// unchanged.
pub fn delete_comment(id: i64, executed: Option<Result<u64, sqlx::Error>>) -> (r: DBResult<()>)
    requires
        executed is Some <==> queried(id),
    ensures
        match executed {
            None => r == Ok::<(), DBError>(()),
            Some(Ok(_)) => r == Ok::<(), DBError>(()),
            Some(Err(e)) => r == Err::<(), DBError>(DBError::DBError(e)),
        },
        !queried(id) ==> r == Ok::<(), DBError>(()),
{
    match executed {
        None => Ok(()),
        Some(done) => deleted(done),
    }
}

} // verus!
