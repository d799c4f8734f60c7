use db_sqlx_postgres::model::{Creds, DBError, Gist, GistVisibility, Password};
use db_sqlx_postgres::outcome::{
    account_updated, delete_comment, deleted, email_login, existence, fetch_one, get_comment_by_id,
    get_comments_on_gist, get_gist, get_secret, update_password, user_gists, username_login,
    written,
};
use db_sqlx_postgres::outcome::comment_id;
use db_sqlx_postgres::rows::{gist_rows_reached_complete, InnerGist, InnerGistComment};

fn row(public_id: &str, visibility: &str, description: Option<&str>) -> InnerGist {
    InnerGist {
        owner: Some("alice".to_string()),
        description: description.map(|d| d.to_string()),
        public_id: Some(public_id.to_string()),
        created: Some(1_650_000_000),
        updated: Some(1_650_000_100),
        visibility: Some(visibility.to_string()),
    }
}

fn comment_row(id: i32, text: &str) -> InnerGistComment {
    InnerGistComment {
        id: Some(id),
        owner: Some("bob".to_string()),
        comment: Some(text.to_string()),
        gist_public_id: Some("g1".to_string()),
        created: Some(1_700_000_000 + id as i64),
    }
}

fn check_gist(g: &Gist, public_id: &str, visibility: GistVisibility, description: Option<&str>) {
    assert_eq!(g.owner, "alice");
    assert_eq!(g.public_id, public_id);
    assert_eq!(g.description.as_deref(), description);
    assert_eq!(g.created, 1_650_000_000);
    assert_eq!(g.updated, 1_650_000_100);
    assert_eq!(g.visibility, visibility);
}

#[test]
fn login_answers() {
    let creds = Creds { username: "alice".to_string(), password: "hash".to_string() };
    match email_login(Ok(creds)) {
        Ok(c) => {
            assert_eq!(c.username, "alice");
            assert_eq!(c.password, "hash");
        }
        Err(e) => panic!("{:?}", e),
    }
    assert!(matches!(email_login(Err(sqlx::Error::RowNotFound)), Err(DBError::AccountNotFound)));
    assert!(matches!(
        username_login(Err(sqlx::Error::RowNotFound)),
        Err(DBError::AccountNotFound)
    ));
    match username_login(Ok(Password { password: "p".to_string() })) {
        Ok(p) => assert_eq!(p.password, "p"),
        Err(e) => panic!("{:?}", e),
    }
    assert!(matches!(
        username_login(Err(sqlx::Error::PoolClosed)),
        Err(DBError::DBError(sqlx::Error::PoolClosed))
    ));
}

#[test]
fn secret_answers() {
    assert_eq!(get_secret(Ok("s3cr3t".to_string())).unwrap(), "s3cr3t");
    assert!(matches!(get_secret(Err(sqlx::Error::RowNotFound)), Err(DBError::AccountNotFound)));
    assert!(matches!(
        fetch_one::<u8>(Err(sqlx::Error::RowNotFound), DBError::CommentNotFound),
        Err(DBError::CommentNotFound)
    ));
    assert_eq!(fetch_one::<u8>(Ok(7), DBError::CommentNotFound).unwrap(), 7);
}

#[test]
fn writes_succeed_whatever_they_touched() {
    assert!(written(Ok(0)).is_ok());
    assert!(written(Ok(1)).is_ok());
    assert!(matches!(written(Err(sqlx::Error::PoolClosed)), Err(DBError::DBError(_))));
    assert!(deleted(Ok(0)).is_ok());
    assert!(deleted(Ok(3)).is_ok());
    assert!(matches!(
        deleted(Err(sqlx::Error::RowNotFound)),
        Err(DBError::DBError(sqlx::Error::RowNotFound))
    ));
}

#[test]
fn updates_need_a_row() {
    assert!(matches!(account_updated(Ok(0)), Err(DBError::AccountNotFound)));
    assert!(account_updated(Ok(1)).is_ok());
    assert!(matches!(account_updated(Err(sqlx::Error::PoolTimedOut)), Err(DBError::DBError(_))));
    assert!(matches!(update_password(Ok(0)), Err(DBError::AccountNotFound)));
    assert!(update_password(Ok(2)).is_ok());
    assert!(matches!(
        update_password(Err(sqlx::Error::RowNotFound)),
        Err(DBError::DBError(sqlx::Error::RowNotFound))
    ));
}

#[test]
fn existence_answers() {
    assert!(existence(Ok(Some(true))).unwrap());
    assert!(!existence(Ok(Some(false))).unwrap());
    assert!(!existence(Ok(None)).unwrap());
    assert!(matches!(
        existence(Err(sqlx::Error::PoolClosed)),
        Err(DBError::DBError(sqlx::Error::PoolClosed))
    ));
}

#[test]
fn gist_from_row() {
    let g = row("g1", "public", Some("hello")).to_gist().unwrap();
    check_gist(&g, "g1", GistVisibility::Public, Some("hello"));
    let g = get_gist(Ok(row("g2", "unlisted", None))).unwrap();
    check_gist(&g, "g2", GistVisibility::Unlisted, None);
    match get_gist(Ok(row("g3", "hidden", None))) {
        Err(DBError::UnknownVisibilitySpecifier(name)) => assert_eq!(name, "hidden"),
        other => panic!("{:?}", other.map(|g| g.public_id)),
    }
    assert!(matches!(get_gist(Err(sqlx::Error::RowNotFound)), Err(DBError::GistNotFound)));
}

#[test]
fn user_gists_keep_order() {
    let rows = vec![row("a", "private", None), row("b", "public", Some("d")), row("c", "unlisted", None)];
    let gists = user_gists(Ok(rows)).unwrap();
    assert_eq!(gists.len(), 3);
    check_gist(&gists[0], "a", GistVisibility::Private, None);
    check_gist(&gists[1], "b", GistVisibility::Public, Some("d"));
    check_gist(&gists[2], "c", GistVisibility::Unlisted, None);
    assert!(user_gists(Ok(vec![])).unwrap().is_empty());
}

#[test]
fn user_gists_report_first_unknown_visibility() {
    let rows = vec![row("a", "public", None), row("b", "weird", None), row("c", "odd", None)];
    match user_gists(Ok(rows)) {
        Err(DBError::UnknownVisibilitySpecifier(name)) => assert_eq!(name, "weird"),
        other => panic!("{:?}", other.map(|g| g.len())),
    }
    assert!(matches!(user_gists(Err(sqlx::Error::RowNotFound)), Err(DBError::GistNotFound)));
}

#[test]
fn comments_keep_order() {
    let comments = get_comments_on_gist(Ok(vec![comment_row(3, "first"), comment_row(1, "second")])).unwrap();
    assert_eq!(comments.len(), 2);
    assert_eq!(comments[0].id, 3);
    assert_eq!(comments[0].comment, "first");
    assert_eq!(comments[0].created, 1_700_000_003);
    assert_eq!(comments[1].id, 1);
    assert_eq!(comments[1].comment, "second");
    assert_eq!(comments[1].owner, "bob");
    assert_eq!(comments[1].gist_public_id, "g1");
    assert!(matches!(
        get_comments_on_gist(Err(sqlx::Error::RowNotFound)),
        Err(DBError::CommentNotFound)
    ));
}

#[test]
fn comment_by_id_answers() {
    let c = get_comment_by_id(-5, Some(Ok(comment_row(-5, "neg")))).unwrap();
    assert_eq!(c.id, -5);
    assert_eq!(c.comment, "neg");
    let c = get_comment_by_id(i32::MAX as i64, Some(Ok(comment_row(i32::MAX, "max")))).unwrap();
    assert_eq!(c.id, i32::MAX as i64);
    assert!(matches!(
        get_comment_by_id(1, Some(Err(sqlx::Error::RowNotFound))),
        Err(DBError::CommentNotFound)
    ));
    assert!(matches!(
        get_comment_by_id(1, Some(Err(sqlx::Error::PoolClosed))),
        Err(DBError::DBError(sqlx::Error::PoolClosed))
    ));
}

#[test]
fn comment_by_id_out_of_range_names_no_comment() {
    let id = (1i64 << 32) + 1;
    assert_eq!(comment_id(id), None);
    assert!(matches!(get_comment_by_id(id, None), Err(DBError::CommentNotFound)));
    assert!(matches!(
        get_comment_by_id(i32::MIN as i64 - 1, None),
        Err(DBError::CommentNotFound)
    ));
}

#[test]
fn delete_comment_answers() {
    assert!(delete_comment(3, Some(Ok(1))).is_ok());
    assert!(delete_comment(3, Some(Ok(0))).is_ok());
    assert!(matches!(
        delete_comment(3, Some(Err(sqlx::Error::PoolClosed))),
        Err(DBError::DBError(sqlx::Error::PoolClosed))
    ));
    let id = (1i64 << 32) + 1;
    assert!(delete_comment(id, None).is_ok());
}

#[test]
fn comment_ids_in_range_only() {
    assert_eq!(comment_id(0), Some(0));
    assert_eq!(comment_id(42), Some(42));
    assert_eq!(comment_id(-7), Some(-7));
    assert_eq!(comment_id(i32::MAX as i64), Some(i32::MAX));
    assert_eq!(comment_id(i32::MIN as i64), Some(i32::MIN));
    assert_eq!(comment_id(i32::MAX as i64 + 1), None);
    assert_eq!(comment_id(i32::MIN as i64 - 1), None);
    assert_eq!(comment_id(1 << 32), None);
}

#[test]
fn rows_reached_by_conversion_must_be_complete() {
    let mut incomplete = row("x", "public", None);
    incomplete.owner = None;
    assert!(gist_rows_reached_complete(&vec![row("a", "public", None), row("b", "private", None)]));
    assert!(gist_rows_reached_complete(&vec![]));
    assert!(!gist_rows_reached_complete(&vec![row("a", "public", None), incomplete]));
    let mut incomplete = row("x", "public", None);
    incomplete.created = None;
    assert!(gist_rows_reached_complete(&vec![row("a", "bogus", None), incomplete]));
    let mut no_visibility = row("x", "public", None);
    no_visibility.visibility = None;
    assert!(!gist_rows_reached_complete(&vec![no_visibility]));
    assert!(row("a", "public", None).is_complete());
}

#[test]
fn unknown_visibility_wins_over_later_incomplete_row() {
    let mut incomplete = row("x", "public", None);
    incomplete.updated = None;
    match user_gists(Ok(vec![row("a", "bogus", None), incomplete])) {
        Err(DBError::UnknownVisibilitySpecifier(name)) => assert_eq!(name, "bogus"),
        other => panic!("{:?}", other.map(|g| g.len())),
    }
}
