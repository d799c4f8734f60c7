use db_sqlx_postgres::model::{DBError, GistVisibility};

#[test]
fn visibility_names() {
    assert_eq!(GistVisibility::Private.to_str(), "private");
    assert_eq!(GistVisibility::Unlisted.to_str(), "unlisted");
    assert_eq!(GistVisibility::Public.to_str(), "public");
}

#[test]
fn visibility_round_trip() {
    for v in [GistVisibility::Private, GistVisibility::Unlisted, GistVisibility::Public] {
        match GistVisibility::from_str(v.to_str()) {
            Ok(parsed) => assert_eq!(parsed, v),
            Err(e) => panic!("{:?}", e),
        }
    }
}

#[test]
fn visibility_unknown_name_is_carried() {
    match GistVisibility::from_str("secret") {
        Err(DBError::UnknownVisibilitySpecifier(name)) => assert_eq!(name, "secret"),
        other => panic!("{:?}", other),
    }
}

#[test]
fn visibility_names_are_exact() {
    for name in ["Public", " public", "public ", "", "privat", "privates", "unlist"] {
        assert!(matches!(
            GistVisibility::from_str(name),
            Err(DBError::UnknownVisibilitySpecifier(_))
        ));
    }
}
