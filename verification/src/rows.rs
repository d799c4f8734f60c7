//! Raw rows of the gist and comment views, and their conversion into the store's
//! gists and comments.
//!
//! A row holds each column as the driver hands it over, every one of them
//! nullable; timestamps are already in Unix seconds.
use vstd::prelude::*;

use crate::model::{visibility_named, DBError, DBResult, Gist, GistComment, GistVisibility};

verus! {

/// A row of the gist view.
pub struct InnerGist {
    pub owner: Option<String>,
    pub description: Option<String>,
    pub public_id: Option<String>,
    pub created: Option<i64>,
    pub updated: Option<i64>,
    pub visibility: Option<String>,
}

impl InnerGist {
    /// Every column that a gist needs is present.
    pub open spec fn complete(self) -> bool {
        &&& self.owner is Some
        &&& self.public_id is Some
        &&& self.created is Some
        &&& self.updated is Some
        &&& self.visibility is Some
    }

    /// The visibility that the row's stored name stands for, if any.
    pub open spec fn parsed_visibility(self) -> Option<GistVisibility> {
        visibility_named(self.visibility->0@)
    }

    /// The gist that the row holds, with visibility `v`.
    pub open spec fn gist_with(self, v: GistVisibility) -> Gist {
        Gist {
            owner: self.owner->0,
            description: self.description,
            public_id: self.public_id->0,
            created: self.created->0,
            updated: self.updated->0,
            visibility: v,
        }
    }

    /// Whether every column that a gist needs is present.
    pub fn is_complete(&self) -> (r: bool)
        ensures
            r == self.complete(),
    {
        self.owner.is_some() && self.public_id.is_some() && self.created.is_some()
            && self.updated.is_some() && self.visibility.is_some()
    }

    /// The row's gist; an unknown visibility name is an error carrying the name.
    pub fn to_gist(self) -> (r: DBResult<Gist>)
        requires
            self.complete(),
        ensures
            match self.parsed_visibility() {
                Some(v) => r == Ok::<Gist, DBError>(self.gist_with(v)),
                None => r matches Err(DBError::UnknownVisibilitySpecifier(t)) && t@
                    == self.visibility->0@,
            },
            r is Ok <==> visibility_named(self.visibility->0@) is Some,
            r matches Ok(g) ==> {
                &&& g.owner == self.owner->0
                &&& g.description == self.description
                &&& g.public_id == self.public_id->0
                &&& g.created == self.created->0
                &&& g.updated == self.updated->0
                &&& g.visibility.name() == self.visibility->0@
            },
    {
        let visibility = match &self.visibility {
            Some(name) => GistVisibility::from_str(name.as_str()),
            None => Err(DBError::GistNotFound),
        };
        match visibility {
            Ok(v) => Ok(
                Gist {
                    owner: self.owner.unwrap(),
                    description: self.description,
                    public_id: self.public_id.unwrap(),
                    created: self.created.unwrap(),
                    updated: self.updated.unwrap(),
                    visibility: v,
                },
            ),
            Err(e) => Err(e),
        }
    }
}

/// Every row that a conversion in order reaches is complete: each row after
/// which only known visibility names came.
pub open spec fn reached_complete(rows: Seq<InnerGist>) -> bool {
    forall|i: int|
        0 <= i < rows.len() && all_visible(rows.take(i)) ==> (#[trigger] rows[i]).complete()
}

/// Every row of `rows` names a known visibility.
pub open spec fn all_visible(rows: Seq<InnerGist>) -> bool {
    forall|i: int| 0 <= i < rows.len() ==> (#[trigger] rows[i]).parsed_visibility() is Some
}

/// The gists that `rows` hold, in order.
pub open spec fn gists_of(rows: Seq<InnerGist>) -> Seq<Gist> {
    rows.map_values(|row: InnerGist| row.gist_with(row.parsed_visibility()->0))
}

/// Converts rows into gists, in order, stopping at the first row whose visibility
/// name is unknown and reporting it.
pub fn rows_to_gists(rows: Vec<InnerGist>) -> (r: DBResult<Vec<Gist>>)
    requires
        reached_complete(rows@),
    ensures
        r is Ok <==> all_visible(rows@),
        r matches Ok(gists) ==> gists@ == gists_of(rows@),
        r matches Ok(gists) ==> {
            &&& gists@.len() == rows@.len()
            &&& forall|i: int|
                0 <= i < rows@.len() ==> {
                    &&& (#[trigger] gists@[i]).owner == rows@[i].owner->0
                    &&& gists@[i].description == rows@[i].description
                    &&& gists@[i].public_id == rows@[i].public_id->0
                    &&& gists@[i].created == rows@[i].created->0
                    &&& gists@[i].updated == rows@[i].updated->0
                    &&& gists@[i].visibility.name() == rows@[i].visibility->0@
                }
        },
        r matches Err(e) ==> exists|i: int|
            #![trigger rows@[i]]
            {
                &&& 0 <= i < rows@.len()
                &&& rows@[i].parsed_visibility() is None
                &&& all_visible(rows@.take(i))
                &&& e matches DBError::UnknownVisibilitySpecifier(t) && t@
                    == rows@[i].visibility->0@
            },
{
    let ghost rs = rows@;
    let mut gists: Vec<Gist> = Vec::with_capacity(rows.len());
    for row in it: rows.into_iter()
        invariant
            it.seq() == rs,
            reached_complete(rs),
            gists@.len() == it.index(),
            all_visible(rs.take(it.index() as int)),
            forall|j: int| 0 <= j < it.index() ==> #[trigger] gists@[j] == gists_of(rs)[j],
    {
        let ghost k = it.index();
        assert(rs[k as int].complete());
        match row.to_gist() {
            Ok(g) => {
                gists.push(g);
                assert(all_visible(rs.take(k + 1))) by {
                    assert forall|j: int| 0 <= j < k + 1 implies (
                    #[trigger] rs.take(k + 1)[j]).parsed_visibility() is Some by {
                        if j < k {
                            assert(rs.take(k + 1)[j] == rs.take(k as int)[j]);
                        }
                    }
                }
            },
            Err(e) => {
                assert(rs[k as int].parsed_visibility() is None);
                return Err(e);
            },
        }
    }
    assert(rs.take(rs.len() as int) =~= rs);
    assert(gists@ =~= gists_of(rs));
    Ok(gists)
}

/// Whether every row that a conversion in order reaches is complete, so that
/// `rows_to_gists` may be called on `rows`.
pub fn gist_rows_reached_complete(rows: &Vec<InnerGist>) -> (r: bool)
    ensures
        r == reached_complete(rows@),
{
    let mut i: usize = 0;
    while i < rows.len()
        invariant
            i <= rows@.len(),
            all_visible(rows@.take(i as int)),
            forall|j: int| 0 <= j < i ==> (#[trigger] rows@[j]).complete(),
        decreases rows@.len() - i,
    {
        let row = &rows[i];
        if !row.is_complete() {
            return false;
        }
        let known = match &row.visibility {
            Some(name) => GistVisibility::from_str(name.as_str()).is_ok(),
            None => false,
        };
        if !known {
            assert forall|j: int|
                0 <= j < rows@.len() && all_visible(rows@.take(j)) implies (
                #[trigger] rows@[j]).complete() by {
                if j > i {
                    assert(rows@.take(j)[i as int] == rows@[i as int]);
                }
            }
            return true;
        }
        assert(all_visible(rows@.take(i + 1))) by {
            assert forall|j: int| 0 <= j < i + 1 implies (
            #[trigger] rows@.take(i + 1)[j]).parsed_visibility() is Some by {
                if j < i {
                    assert(rows@.take(i + 1)[j] == rows@.take(i as int)[j]);
                }
            }
        }
        i = i + 1;
    }
    true
}

/// A row of the comment view.
pub struct InnerGistComment {
    pub id: Option<i32>,
    pub owner: Option<String>,
    pub comment: Option<String>,
    pub gist_public_id: Option<String>,
    pub created: Option<i64>,
}

impl InnerGistComment {
    /// Every column that a comment needs is present.
    pub open spec fn complete(self) -> bool {
        &&& self.id is Some
        &&& self.owner is Some
        &&& self.comment is Some
        &&& self.gist_public_id is Some
        &&& self.created is Some
    }

    /// Whether every column that a comment needs is present.
    pub fn is_complete(&self) -> (r: bool)
        ensures
            r == self.complete(),
    {
        self.id.is_some() && self.owner.is_some() && self.comment.is_some()
            && self.gist_public_id.is_some() && self.created.is_some()
    }

    /// The comment that the row holds.
    pub open spec fn comment_of(self) -> GistComment {
        GistComment {
            id: self.id->0 as i64,
            owner: self.owner->0,
            comment: self.comment->0,
            gist_public_id: self.gist_public_id->0,
            created: self.created->0,
        }
    }
}

impl GistComment {
    /// The comment that a complete row holds.
    pub fn from(g: InnerGistComment) -> (r: GistComment)
        requires
            g.complete(),
        ensures
            r == g.comment_of(),
            r.id == g.id->0,
            r.owner == g.owner->0,
            r.comment == g.comment->0,
            r.gist_public_id == g.gist_public_id->0,
            r.created == g.created->0,
    {
        GistComment {
            id: g.id.unwrap() as i64,
            owner: g.owner.unwrap(),
            comment: g.comment.unwrap(),
            gist_public_id: g.gist_public_id.unwrap(),
            created: g.created.unwrap(),
        }
    }
}

/// The comments that `rows` hold, in order.
pub open spec fn comments_of(rows: Seq<InnerGistComment>) -> Seq<GistComment> {
    rows.map_values(|row: InnerGistComment| row.comment_of())
}

/// Converts comment rows into comments, in order.
pub fn rows_to_comments(rows: Vec<InnerGistComment>) -> (r: Vec<GistComment>)
    requires
        forall|i: int| 0 <= i < rows@.len() ==> (#[trigger] rows@[i]).complete(),
    ensures
        r@ == comments_of(rows@),
        r@.len() == rows@.len(),
        forall|i: int|
            0 <= i < rows@.len() ==> {
                &&& (#[trigger] r@[i]).id == rows@[i].id->0
                &&& r@[i].owner == rows@[i].owner->0
                &&& r@[i].comment == rows@[i].comment->0
                &&& r@[i].gist_public_id == rows@[i].gist_public_id->0
                &&& r@[i].created == rows@[i].created->0
            },
{
    let ghost rs = rows@;
    let mut comments: Vec<GistComment> = Vec::with_capacity(rows.len());
    for row in it: rows.into_iter()
        invariant
            it.seq() == rs,
            forall|i: int| 0 <= i < rs.len() ==> (#[trigger] rs[i]).complete(),
            comments@.len() == it.index(),
            forall|j: int| 0 <= j < it.index() ==> #[trigger] comments@[j] == comments_of(rs)[j],
    {
        comments.push(GistComment::from(row));
    }
    assert(comments@ =~= comments_of(rs));
    comments
}

/// A gist keeps every column of the row it comes from, whatever its visibility,
/// and its visibility is the one the row's stored name stands for.
pub proof fn lemma_gist_keeps_columns(row: InnerGist, v: GistVisibility)
    requires
        row.complete(),
        visibility_named(row.visibility->0@) == Some(v),
    ensures
        row.gist_with(v).owner == row.owner->0,
        row.gist_with(v).description == row.description,
        row.gist_with(v).public_id == row.public_id->0,
        row.gist_with(v).created == row.created->0,
        row.gist_with(v).updated == row.updated->0,
        row.gist_with(v).visibility == v,
        row.gist_with(v).visibility.name() == row.visibility->0@,
{
    crate::model::lemma_visibility_name_round_trip(v);
}

/// A listing holds one gist per row, in order, each built from its own row only.
pub proof fn lemma_gists_row_by_row(rows: Seq<InnerGist>)
    requires
        all_visible(rows),
    ensures
        gists_of(rows).len() == rows.len(),
        forall|i: int|
            0 <= i < rows.len() ==> {
                &&& (#[trigger] gists_of(rows)[i]).owner == rows[i].owner->0
                &&& gists_of(rows)[i].description == rows[i].description
                &&& gists_of(rows)[i].public_id == rows[i].public_id->0
                &&& gists_of(rows)[i].created == rows[i].created->0
                &&& gists_of(rows)[i].updated == rows[i].updated->0
                &&& gists_of(rows)[i].visibility == visibility_named(rows[i].visibility->0@)->0
            },
{
}

/// A comment keeps every column of the row it comes from.
pub proof fn lemma_comment_keeps_columns(row: InnerGistComment)
    requires
        row.complete(),
    ensures
        row.comment_of().id == row.id->0,
        row.comment_of().owner == row.owner->0,
        row.comment_of().comment == row.comment->0,
        row.comment_of().gist_public_id == row.gist_public_id->0,
        row.comment_of().created == row.created->0,
{
}

/// A comment listing holds one comment per row, in order, each built from its
/// own row only.
pub proof fn lemma_comments_row_by_row(rows: Seq<InnerGistComment>)
    ensures
        comments_of(rows).len() == rows.len(),
        forall|i: int|
            0 <= i < rows.len() ==> {
                &&& (#[trigger] comments_of(rows)[i]).id == rows[i].id->0
                &&& comments_of(rows)[i].owner == rows[i].owner->0
                &&& comments_of(rows)[i].comment == rows[i].comment->0
                &&& comments_of(rows)[i].gist_public_id == rows[i].gist_public_id->0
                &&& comments_of(rows)[i].created == rows[i].created->0
            },
{
}

} // verus!
