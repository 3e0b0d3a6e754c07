use conduit_client::entity::{Article, Author, Credentials, Profile, Slug, Viewer};
use conduit_client::feed::{
    init, update, view_articles, view_favorite_button, view_pagination, FavoriteAction, FeedContent,
    Model, Msg, Order, PageLink, PaginatedList, Tab,
};
use conduit_client::request::Method;
use conduit_client::timestamp::Timestamp;

fn t0() -> Timestamp {
    Timestamp { year: 2020, month: 1, day: 1, hour: 0, minute: 0, second: 0, millisecond: 0 }
}

fn article(slug: &str, favorited: bool, favorites_count: usize) -> Article {
    Article {
        title: format!("title of {}", slug),
        slug: Slug(slug.to_string()),
        body: String::new(),
        created_at: t0(),
        updated_at: t0(),
        tag_list: vec![],
        description: String::new(),
        author: Author::NotFollowing("bob".to_string(), Profile { bio: None, image: None }),
        favorited,
        favorites_count,
    }
}

fn viewer() -> Viewer {
    Viewer {
        credentials: Credentials { auth_token: "tok".to_string(), username: "jake".to_string() },
        profile: Profile { bio: None, image: None },
    }
}

fn model(values: Vec<Article>, total: usize) -> Model {
    init(Some(viewer()), PaginatedList::new(values, total, 10).unwrap())
}

#[test]
fn completion_replaces_article_with_same_slug() {
    let mut m = model(vec![article("a", false, 3)], 1);
    let r = update(Msg::FavoriteCompleted(Ok(article("a", true, 4))), &mut m);
    assert!(r.is_none());
    assert_eq!(m.articles.values.len(), 1);
    assert_eq!(m.articles.values[0].slug.0, "a");
    assert!(m.articles.values[0].favorited);
    assert_eq!(m.articles.values[0].favorites_count, 4);
}

#[test]
fn completion_for_absent_slug_changes_nothing() {
    let mut m = model(vec![article("a", false, 3)], 1);
    update(Msg::FavoriteCompleted(Ok(article("b", true, 4))), &mut m);
    assert_eq!(m.articles.values.len(), 1);
    assert_eq!(m.articles.values[0].slug.0, "a");
    assert!(!m.articles.values[0].favorited);
    assert_eq!(m.articles.values[0].favorites_count, 3);
}

#[test]
fn completion_replaces_only_the_matching_article() {
    let mut m = model(vec![article("a", false, 3), article("b", false, 0), article("c", true, 9)], 3);
    update(Msg::FavoriteCompleted(Ok(article("b", true, 1))), &mut m);
    let counts: Vec<usize> = m.articles.values.iter().map(|a| a.favorites_count).collect();
    assert_eq!(counts, vec![3, 1, 9]);
    assert_eq!(m.articles.total, 3);
}

#[test]
fn failed_completion_replaces_errors_and_dismiss_clears() {
    let mut m = model(vec![], 0);
    m.errors = vec!["old".to_string()];
    let r = update(Msg::FavoriteCompleted(Err(vec!["x".to_string(), "y".to_string()])), &mut m);
    assert_eq!(m.errors, vec!["x".to_string(), "y".to_string()]);
    match r {
        Some(Order::LogErrors(logged)) => assert_eq!(logged, vec!["x".to_string(), "y".to_string()]),
        _ => panic!("errors were not logged"),
    }
    let r = update(Msg::DismissErrorsClicked, &mut m);
    assert!(r.is_none());
    assert!(m.errors.is_empty());
}

#[test]
fn favorite_clicks_issue_one_request_each() {
    let mut m = model(vec![article("a", false, 3)], 1);
    match update(Msg::FavoriteClicked(Slug("a".to_string())), &mut m) {
        Some(Order::Perform(q)) => {
            assert!(matches!(q.method, Method::Post));
            assert_eq!(q.url, "https://conduit.productionready.io/api/articles/a/favorite");
            assert_eq!(q.authorization.as_deref(), Some("Token tok"));
        }
        _ => panic!("no request"),
    }
    match update(Msg::UnfavoriteClicked(Slug("a".to_string())), &mut m) {
        Some(Order::Perform(q)) => {
            assert!(matches!(q.method, Method::Delete));
            assert_eq!(q.url, "https://conduit.productionready.io/api/articles/a/favorite");
        }
        _ => panic!("no request"),
    }
    assert!(!m.articles.values[0].favorited);
}

#[test]
fn total_pages_rounds_up() {
    let l: PaginatedList<u8> = PaginatedList::new(vec![], 25, 10).unwrap();
    assert_eq!(l.total_pages(), 3);
    let l: PaginatedList<u8> = PaginatedList::new(vec![], 0, 10).unwrap();
    assert_eq!(l.total_pages(), 0);
    let l: PaginatedList<u8> = PaginatedList::new(vec![], 30, 10).unwrap();
    assert_eq!(l.total_pages(), 3);
    let l: PaginatedList<u8> = PaginatedList::new(vec![], usize::MAX, 1).unwrap();
    assert_eq!(l.total_pages(), usize::MAX);
}

#[test]
fn page_bounds_are_checked() {
    assert!(PaginatedList::<u8>::new(vec![], 5, 0).is_none());
    assert!(PaginatedList::new(vec![1u8, 2, 3], 5, 2).is_none());
    let mut l = PaginatedList::new(vec![1u8, 2], 5, 2).unwrap();
    assert!(!l.replace_page(vec![1, 2, 3], 9));
    assert_eq!(l.total, 5);
    assert!(l.replace_page(vec![4], 9));
    assert_eq!(l.values, vec![4]);
    assert_eq!(l.total, 9);
}

#[test]
fn empty_feed_shows_placeholder() {
    let m = model(vec![], 0);
    assert!(matches!(view_articles(&m), FeedContent::NoArticles));
    assert!(view_pagination(&m, 1).is_empty());
}

#[test]
fn pagination_links() {
    let m = model(vec![article("a", false, 0)], 25);
    assert_eq!(
        view_pagination(&m, 2),
        vec![
            PageLink { page: 1, active: false },
            PageLink { page: 2, active: true },
            PageLink { page: 3, active: false },
        ]
    );
    let single = model(vec![article("a", false, 0)], 10);
    assert!(view_pagination(&single, 1).is_empty());
}

#[test]
fn previews_carry_favorite_buttons() {
    let m = model(vec![article("a", true, 5), article("b", false, 0)], 2);
    match view_articles(&m) {
        FeedContent::Previews(v) => {
            assert_eq!(v.len(), 2);
            let b0 = v[0].unwrap();
            assert!(b0.filled);
            assert_eq!(b0.favorites_count, 5);
            assert_eq!(b0.on_click, FavoriteAction::Unfavorite);
            assert_eq!(v[1].unwrap().on_click, FavoriteAction::Favorite);
        }
        FeedContent::NoArticles => panic!("placeholder for a non-empty feed"),
    }
    assert!(view_favorite_button(false, &article("a", true, 5)).is_none());
    let guest = init(None, PaginatedList::new(vec![article("a", true, 5)], 1, 10).unwrap());
    assert!(matches!(view_articles(&guest), FeedContent::Previews(v) if v[0].is_none()));
}

#[test]
fn tabs_start_inactive() {
    let t = Tab::new("Global Feed".to_string(), 1u8);
    assert!(!t.active);
    let t = t.activate();
    assert!(t.active);
    assert_eq!(t.title, "Global Feed");
    assert_eq!(t.msg, 1);
}
