//! The store's data model: credentials, gists, comments, their visibility, and
//! the store's error type.
use vstd::prelude::*;

use crate::text::str_equals;

verus! {

/// Why a store operation failed.
#[derive(Debug)]
pub enum DBError {
    /// The database driver reported an error that the store does not map further.
    DBError(sqlx::Error),
    /// The username is already registered.
    DuplicateUsername,
    /// The secret is already in use.
    DuplicateSecret,
    /// The email is already registered.
    DuplicateEmail,
    /// No account matched.
    AccountNotFound,
    /// The gist public ID is already taken.
    GistIDTaken,
    /// A stored visibility name is none of the known ones; it is carried along.
    UnknownVisibilitySpecifier(String),
    /// No gist matched.
    GistNotFound,
    /// No comment matched.
    CommentNotFound,
}

/// Result of a store operation.
pub type DBResult<V> = Result<V, DBError>;

/// Username and password of an account.
pub struct Creds {
    pub username: String,
    pub password: String,
}

/// Password of an account.
pub struct Password {
    pub password: String,
}

/// Who may see a gist.
#[derive(Clone, Copy, Debug, PartialEq, Eq, Structural)]
pub enum GistVisibility {
    Private,
    Unlisted,
    Public,
}

impl GistVisibility {
    /// The name under which the visibility is stored.
    pub open spec fn name(self) -> Seq<char> {
        match self {
            GistVisibility::Private => "private"@,
            GistVisibility::Unlisted => "unlisted"@,
            GistVisibility::Public => "public"@,
        }
    }

    /// The stored name of this visibility.
    pub fn to_str(&self) -> (name: &'static str)
        ensures
            name@ == self.name(),
    {
        match self {
            GistVisibility::Private => "private",
            GistVisibility::Unlisted => "unlisted",
            GistVisibility::Public => "public",
        }
    }

    /// Parses a stored visibility name; an unknown name is an error that carries it.
    pub fn from_str(s: &str) -> (r: DBResult<GistVisibility>)
        ensures
            match visibility_named(s@) {
                Some(v) => r == Ok::<GistVisibility, DBError>(v),
                None => r matches Err(DBError::UnknownVisibilitySpecifier(t)) && t@ == s@,
            },
    {
        if str_equals(s, "private") {
            Ok(GistVisibility::Private)
        } else if str_equals(s, "unlisted") {
            Ok(GistVisibility::Unlisted)
        } else if str_equals(s, "public") {
            Ok(GistVisibility::Public)
        } else {
            Err(DBError::UnknownVisibilitySpecifier(s.to_owned()))
        }
    }
}

/// The visibility whose stored name is `s`, if any.
pub open spec fn visibility_named(s: Seq<char>) -> Option<GistVisibility> {
    if s == "private"@ {
        Some(GistVisibility::Private)
    } else if s == "unlisted"@ {
        Some(GistVisibility::Unlisted)
    } else if s == "public"@ {
        Some(GistVisibility::Public)
    } else {
        None
    }
}

/// Parsing gives back every visibility from its stored name.
pub proof fn lemma_visibility_name_round_trip(v: GistVisibility)
    ensures
        visibility_named(v.name()) == Some(v),
{
    reveal_strlit("private");
    reveal_strlit("unlisted");
    reveal_strlit("public");
    assert("private"@[0] != "unlisted"@[0]);
    assert("private"@.len() != "public"@.len());
    assert("unlisted"@[0] != "public"@[0]);
}

/// Distinct visibilities are stored under distinct names.
pub proof fn lemma_visibility_names_distinct(a: GistVisibility, b: GistVisibility)
    ensures
        a.name() == b.name() ==> a == b,
{
    lemma_visibility_name_round_trip(a);
    lemma_visibility_name_round_trip(b);
}

/// A gist as the store hands it out; timestamps are Unix seconds.
pub struct Gist {
    pub owner: String,
    pub description: Option<String>,
    pub public_id: String,
    pub created: i64,
    pub updated: i64,
    pub visibility: GistVisibility,
}

/// A comment on a gist as the store hands it out; `created` is in Unix seconds.
pub struct GistComment {
    pub id: i64,
    pub owner: String,
    pub comment: String,
    pub gist_public_id: String,
    pub created: i64,
}

/// What an account registered with an email is made of.
pub struct EmailRegisterPayload {
    pub username: String,
    pub password: String,
    pub email: String,
    pub secret: String,
}

/// What an account registered without an email is made of.
pub struct UsernameRegisterPayload {
    pub username: String,
    pub password: String,
    pub secret: String,
}

/// A new email for an account.
pub struct UpdateEmailPayload {
    pub username: String,
    pub email: String,
}

/// A new username for an account.
pub struct UpdateUsernamePayload {
    pub old_username: String,
    pub new_username: String,
}

/// A gist to be created.
pub struct CreateGist {
    pub owner: String,
    pub description: Option<String>,
    pub public_id: String,
    pub visibility: GistVisibility,
}

/// A comment to be posted on a gist.
pub struct CreateGistComment {
    pub owner: String,
    pub gist_public_id: String,
    pub comment: String,
}

} // verus!
