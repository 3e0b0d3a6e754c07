use conduit_client::decoder::{decimal_text, ArticleDto, AuthorDto, Comment, DecodeError};
use conduit_client::entity::{Author, Credentials, Profile, Viewer};
use conduit_client::timestamp::Timestamp;

fn viewer(name: &str) -> Viewer {
    Viewer {
        credentials: Credentials { auth_token: "tok".to_string(), username: name.to_string() },
        profile: Profile { bio: None, image: None },
    }
}

fn author(name: &str, following: bool) -> AuthorDto {
    AuthorDto {
        username: name.to_string(),
        bio: Some("bio".to_string()),
        image: Some("img".to_string()),
        following,
    }
}

fn article_dto(created_at: &str) -> ArticleDto {
    ArticleDto {
        title: "Title".to_string(),
        slug: "how-to".to_string(),
        body: "Body".to_string(),
        created_at: created_at.to_string(),
        updated_at: "2016-02-18T03:48:35.824Z".to_string(),
        tag_list: vec!["rust".to_string(), "web".to_string()],
        description: "Desc".to_string(),
        author: author("jake", true),
        favorited: false,
        favorites_count: 3,
    }
}

#[test]
fn following_author_of_other_user() {
    let v = viewer("alice");
    match author("jake", true).into_author(Some(&v)) {
        Author::Following(name, profile) => {
            assert_eq!(name, "jake");
            assert_eq!(profile.bio.as_deref(), Some("bio"));
            assert_eq!(profile.image.as_deref(), Some("img"));
        }
        other => panic!("unexpected {:?}", other),
    }
}

#[test]
fn not_following_author_of_other_user() {
    let v = viewer("alice");
    assert!(matches!(author("jake", false).into_author(Some(&v)), Author::NotFollowing(_, _)));
}

#[test]
fn viewer_is_recognised_whatever_the_flag() {
    let v = viewer("jake");
    for flag in [true, false] {
        match author("jake", flag).into_author(Some(&v)) {
            Author::IsViewer(c, _) => {
                assert_eq!(c.auth_token, "tok");
                assert_eq!(c.username, "jake");
            }
            other => panic!("unexpected {:?}", other),
        }
    }
}

#[test]
fn username_comparison_is_exact() {
    let v = viewer("Jake");
    assert!(matches!(author("jake", false).into_author(Some(&v)), Author::NotFollowing(_, _)));
}

#[test]
fn without_viewer_flag_decides() {
    assert!(matches!(author("jake", true).into_author(None), Author::Following(_, _)));
    assert!(matches!(author("jake", false).into_author(None), Author::NotFollowing(_, _)));
}

#[test]
fn article_decodes() {
    let a = article_dto("2016-02-18T03:22:56.637Z").try_into_article(None).unwrap();
    assert_eq!(a.title, "Title");
    assert_eq!(a.slug.0, "how-to");
    assert_eq!(a.body, "Body");
    assert_eq!(a.description, "Desc");
    assert_eq!(a.tag_list, vec!["rust".to_string(), "web".to_string()]);
    assert_eq!(a.created_at, Timestamp { year: 2016, month: 2, day: 18, hour: 3, minute: 22, second: 56, millisecond: 637 });
    assert_eq!(a.updated_at.minute, 48);
    assert!(!a.favorited);
    assert_eq!(a.favorites_count, 3);
    assert!(matches!(a.author, Author::Following(_, _)));
}

#[test]
fn malformed_created_at_fails_article() {
    match article_dto("not-a-date").try_into_article(None) {
        Err(DecodeError::InvalidTimestamp(field, raw)) => {
            assert_eq!(field, "createdAt");
            assert_eq!(raw, "not-a-date");
        }
        Ok(_) => panic!("decoded a partial article"),
    }
}

#[test]
fn malformed_updated_at_fails_article() {
    let mut dto = article_dto("2016-02-18T03:22:56.637Z");
    dto.updated_at = "yesterday".to_string();
    match dto.try_into_article(None) {
        Err(DecodeError::InvalidTimestamp(field, raw)) => {
            assert_eq!(field, "updatedAt");
            assert_eq!(raw, "yesterday");
        }
        Ok(_) => panic!("decoded a partial article"),
    }
}

#[test]
fn comment_decodes_with_text_id() {
    let v = viewer("jake");
    let c = Comment {
        id: 1024,
        created_at: "2016-02-18T03:22:56.637Z".to_string(),
        updated_at: "2016-02-18T03:22:56.637Z".to_string(),
        body: "Nice".to_string(),
        author: author("jake", false),
    };
    let c = c.try_into_comment(Some(&v)).unwrap();
    assert_eq!(c.id.as_str(), "1024");
    assert_eq!(c.body, "Nice");
    assert_eq!(c.created_at.year, 2016);
    assert!(matches!(c.author, Author::IsViewer(_, _)));
}

#[test]
fn comment_with_bad_timestamp_fails() {
    let c = Comment {
        id: 1,
        created_at: "2016-02-18T03:22:56.637Z".to_string(),
        updated_at: "2016-02-30T03:22:56.637Z".to_string(),
        body: "Nice".to_string(),
        author: author("jake", false),
    };
    assert!(matches!(c.try_into_comment(None), Err(DecodeError::InvalidTimestamp(f, _)) if f == "updatedAt"));
}

#[test]
fn decimal_text_of_numbers() {
    assert_eq!(decimal_text(0), "0");
    assert_eq!(decimal_text(7), "7");
    assert_eq!(decimal_text(10), "10");
    assert_eq!(decimal_text(90210), "90210");
    assert_eq!(decimal_text(usize::MAX), usize::MAX.to_string());
}
