//! The paginated article feed: its state, what it shows, and how it reacts
//! to events.
use crate::entity::{Article, Slug, Viewer};
use crate::request::{self, Request};
use vstd::prelude::*;

verus! {

/// One page of items, with the number of items over all pages.
pub struct PaginatedList<T> {
    pub values: Vec<T>,
    pub total: usize,
    pub per_page: usize,
}

/// Pages needed for `total` items at `per_page` a page.
pub open spec fn page_count(total: int, per_page: int) -> int {
    (total + per_page - 1) / per_page
}

impl<T> PaginatedList<T> {
    /// A positive page size, and no more values than fit on a page.
    pub open spec fn wf(&self) -> bool {
        self.per_page > 0 && self.values@.len() <= self.per_page
    }

    /// A page; `None` where the page size is zero or the values do not fit.
    pub fn new(values: Vec<T>, total: usize, per_page: usize) -> (r: Option<Self>)
        ensures
            r is Some <==> per_page > 0 && values@.len() <= per_page,
            r matches Some(l) ==> l.values == values && l.total == total && l.per_page == per_page,
    {
        if per_page > 0 && values.len() <= per_page {
            Some(PaginatedList { values, total, per_page })
        } else {
            None
        }
    }

    /// The number of pages, rounded up.
    pub fn total_pages(&self) -> (r: usize)
        requires
            self.wf(),
        ensures
            r == page_count(self.total as int, self.per_page as int),
    {
        let q = self.total / self.per_page;
        let extra: usize = if self.total % self.per_page == 0 { 0 } else { 1 };
        assert(q + extra == page_count(self.total as int, self.per_page as int)) by (nonlinear_arith)
            requires
                self.per_page > 0,
                q == self.total as int / self.per_page as int,
                extra == (if self.total as int % self.per_page as int == 0 { 0int } else { 1int }),
        {
            let t = self.total as int;
            let p = self.per_page as int;
            assert(t == q * p + t % p);
        }
        assert(q + extra <= self.total) by (nonlinear_arith)
            requires
                self.per_page > 0,
                q == self.total as int / self.per_page as int,
                extra == (if self.total as int % self.per_page as int == 0 { 0int } else { 1int }),
        {
            let t = self.total as int;
            let p = self.per_page as int;
            assert(t == q * p + t % p);
            if p == 1 {
                assert(t % p == 0);
            }
        }
        q + extra
    }

    /// Puts another page in place: its values and the total together.
    pub fn replace_page(&mut self, values: Vec<T>, total: usize) -> (r: bool)
        ensures
            r <==> values@.len() <= old(self).per_page,
            r ==> final(self).values == values && final(self).total == total && final(self).per_page
                == old(self).per_page,
            !r ==> *final(self) == *old(self),
    {
        if values.len() <= self.per_page {
            self.values = values;
            self.total = total;
            true
        } else {
            false
        }
    }
}

/// The state of the feed.
pub struct Model {
    pub session: Option<Viewer>,
    pub errors: Vec<String>,
    pub articles: PaginatedList<Article>,
}

/// The feed for a session, showing `articles`, with no errors.
pub fn init(session: Option<Viewer>, articles: PaginatedList<Article>) -> (r: Model)
    ensures
        r.session == session,
        r.articles == articles,
        r.errors@.len() == 0,
{
    Model { session, errors: Vec::new(), articles }
}

/// A tab above the feed.
pub struct Tab<Ms> {
    pub title: String,
    pub msg: Ms,
    pub active: bool,
}

impl<Ms> Tab<Ms> {
    /// An inactive tab.
    pub fn new(title: String, msg: Ms) -> (r: Self)
        ensures
            r.title == title,
            r.msg == msg,
            !r.active,
    {
        Tab { title, msg, active: false }
    }

    /// The same tab, marked active.
    pub fn activate(self) -> (r: Self)
        ensures
            r.title == self.title,
            r.msg == self.msg,
            r.active,
    {
        Tab { title: self.title, msg: self.msg, active: true }
    }
}

/// A link to a page, marked when it is the current one.
#[derive(PartialEq, Eq, Structural, Clone, Copy, Debug)]
pub struct PageLink {
    pub page: usize,
    pub active: bool,
}

/// Links to pages `1 ..= total_pages`; none where there is only one page.
pub fn view_pagination(model: &Model, current_page: usize) -> (r: Vec<PageLink>)
    requires
        model.articles.wf(),
    ensures
        page_count(model.articles.total as int, model.articles.per_page as int) <= 1 ==> r@.len()
            == 0,
        page_count(model.articles.total as int, model.articles.per_page as int) > 1 ==> r@.len()
            == page_count(model.articles.total as int, model.articles.per_page as int),
        forall|i: int|
            0 <= i < r@.len() ==> #[trigger] r@[i] == (PageLink {
                page: (i + 1) as usize,
                active: i + 1 == current_page,
            }),
{
    let n = model.articles.total_pages();
    let mut links: Vec<PageLink> = Vec::new();
    if n > 1 {
        let mut i: usize = 0;
        while i < n
            invariant
                i <= n,
                links@.len() == i,
                forall|i: int|
                    0 <= i < links@.len() ==> #[trigger] links@[i] == (PageLink {
                        page: (i + 1) as usize,
                        active: i + 1 == current_page,
                    }),
            decreases n - i,
        {
            let page = i + 1;
            links.push(PageLink { page, active: page == current_page });
            i = i + 1;
        }
    }
    links
}

/// What to send when the heart of an article is clicked.
#[derive(PartialEq, Eq, Structural, Clone, Copy, Debug)]
pub enum FavoriteAction {
    Favorite,
    Unfavorite,
}

/// The heart button of an article preview.
#[derive(PartialEq, Eq, Structural, Clone, Copy, Debug)]
pub struct FavoriteButton {
    pub filled: bool,
    pub favorites_count: usize,
    pub on_click: FavoriteAction,
}

pub open spec fn favorite_button_of(signed_in: bool, article: Article) -> Option<FavoriteButton> {
    if signed_in {
        Some(
            FavoriteButton {
                filled: article.favorited,
                favorites_count: article.favorites_count,
                on_click: if article.favorited {
                    FavoriteAction::Unfavorite
                } else {
                    FavoriteAction::Favorite
                },
            },
        )
    } else {
        None
    }
}

/// The button for a signed-in viewer: filled for a favorite, whose click
/// removes the mark; an empty one adds it.
pub fn view_favorite_button(signed_in: bool, article: &Article) -> (r: Option<FavoriteButton>)
    ensures
        r == favorite_button_of(signed_in, *article),
{
    if signed_in {
        Some(
            FavoriteButton {
                filled: article.favorited,
                favorites_count: article.favorites_count,
                on_click: if article.favorited {
                    FavoriteAction::Unfavorite
                } else {
                    FavoriteAction::Favorite
                },
            },
        )
    } else {
        None
    }
}

/// The body of the feed.
pub enum FeedContent {
    /// Shown where there are no articles at all.
    NoArticles,
    /// One entry per article of the page, with its heart button.
    Previews(Vec<Option<FavoriteButton>>),
}

/// The placeholder where the total is zero, else a preview per article.
pub fn view_articles(model: &Model) -> (r: FeedContent)
    ensures
        r is NoArticles <==> model.articles.total == 0,
        r matches FeedContent::Previews(v) ==> v@.len() == model.articles.values@.len() && forall|
            i: int,
        | 0 <= i < v@.len() ==> #[trigger] v@[i] == favorite_button_of(
            model.session is Some,
            model.articles.values@[i],
        ),
{
    if model.articles.total == 0 {
        return FeedContent::NoArticles;
    }
    let signed_in = model.session.is_some();
    let mut v: Vec<Option<FavoriteButton>> = Vec::new();
    let mut i: usize = 0;
    while i < model.articles.values.len()
        invariant
            i <= model.articles.values@.len(),
            signed_in == model.session is Some,
            v@.len() == i,
            forall|j: int|
                0 <= j < i ==> #[trigger] v@[j] == favorite_button_of(
                    signed_in,
                    model.articles.values@[j],
                ),
        decreases model.articles.values.len() - i,
    {
        v.push(view_favorite_button(signed_in, &model.articles.values[i]));
        i = i + 1;
    }
    FeedContent::Previews(v)
}


/// An event of the feed.
pub enum Msg {
    DismissErrorsClicked,
    /// The viewer asks to mark the article as a favorite.
    FavoriteClicked(Slug),
    /// The viewer asks to remove the favorite mark.
    UnfavoriteClicked(Slug),
    FavoriteCompleted(Result<Article, Vec<String>>),
}

/// Work that the feed hands to its caller.
pub enum Order {
    /// Send this request; its response becomes `FavoriteCompleted`.
    Perform(Request),
    /// Record these messages in the log.
    LogErrors(Vec<String>),
}

/// `after` is `before` with the first article of `a`'s slug replaced by
/// `a`, or `before` itself where no article has that slug.
pub open spec fn merged(before: Seq<Article>, after: Seq<Article>, a: Article) -> bool {
    if exists|i: int| 0 <= i < before.len() && #[trigger] before[i].slug.0@ == a.slug.0@ {
        exists|i: int|
            0 <= i < before.len() && #[trigger] before[i].slug.0@ == a.slug.0@ && (forall|j: int|
                0 <= j < i ==> before[j].slug.0@ != a.slug.0@) && after == before.update(i, a)
    } else {
        after == before
    }
}

/// The position of the first article with `slug`.
fn find_slug(values: &Vec<Article>, slug: &Slug) -> (r: Option<usize>)
    ensures
        r is None ==> forall|j: int| 0 <= j < values@.len() ==> values@[j].slug.0@ != slug.0@,
        r matches Some(i) ==> i < values@.len() && values@[i as int].slug.0@ == slug.0@ && forall|
            j: int,
        | 0 <= j < i ==> values@[j].slug.0@ != slug.0@,
{
    let mut i: usize = 0;
    while i < values.len()
        invariant
            i <= values@.len(),
            forall|j: int| 0 <= j < i ==> values@[j].slug.0@ != slug.0@,
        decreases values.len() - i,
    {
        if values[i].slug.same_as(slug) {
            return Some(i);
        }
        i = i + 1;
    }
    None
}

fn copy_messages(v: &Vec<String>) -> (r: Vec<String>)
    ensures
        r@ == v@,
{
    let mut r: Vec<String> = Vec::new();
    let mut i: usize = 0;
    while i < v.len()
        invariant
            i <= v@.len(),
            r@ == v@.subrange(0, i as int),
        decreases v.len() - i,
    {
        r.push(v[i].clone());
        assert(r@ =~= v@.subrange(0, i + 1));
        i = i + 1;
    }
    assert(v@.subrange(0, i as int) =~= v@);
    r
}

/// Processes one event: clearing the errors, asking for a favorite change,
/// putting a returned article in place of the one with its slug, or showing
/// and logging the errors of a failed change.
pub fn update(msg: Msg, model: &mut Model) -> (r: Option<Order>)
    ensures
        final(model).session == old(model).session,
        final(model).articles.total == old(model).articles.total,
        final(model).articles.per_page == old(model).articles.per_page,
        final(model).articles.values@.len() == old(model).articles.values@.len(),
        old(model).articles.wf() ==> final(model).articles.wf(),
        match msg {
            Msg::DismissErrorsClicked => {
                &&& r is None
                &&& final(model).errors@.len() == 0
                &&& final(model).articles.values == old(model).articles.values
            },
            Msg::FavoriteClicked(slug) => {
                &&& final(model).errors == old(model).errors
                &&& final(model).articles.values == old(model).articles.values
                &&& r matches Some(Order::Perform(q)) && request::request_is(
                    q,
                    request::Method::Post,
                    "articles/"@ + slug.0@ + "/favorite"@,
                    old(model).session,
                    None,
                )
            },
            Msg::UnfavoriteClicked(slug) => {
                &&& final(model).errors == old(model).errors
                &&& final(model).articles.values == old(model).articles.values
                &&& r matches Some(Order::Perform(q)) && request::request_is(
                    q,
                    request::Method::Delete,
                    "articles/"@ + slug.0@ + "/favorite"@,
                    old(model).session,
                    None,
                )
            },
            Msg::FavoriteCompleted(Ok(a)) => {
                &&& r is None
                &&& final(model).errors == old(model).errors
                &&& merged(old(model).articles.values@, final(model).articles.values@, a)
            },
            Msg::FavoriteCompleted(Err(errors)) => {
                &&& final(model).errors == errors
                &&& final(model).articles.values == old(model).articles.values
                &&& r matches Some(Order::LogErrors(logged)) && logged@ == errors@
            },
        },
{
    match msg {
        Msg::DismissErrorsClicked => {
            model.errors = Vec::new();
            None
        },
        Msg::FavoriteClicked(slug) => {
            Some(Order::Perform(request::favorite(model.session.as_ref(), &slug)))
        },
        Msg::UnfavoriteClicked(slug) => {
            Some(Order::Perform(request::unfavorite(model.session.as_ref(), &slug)))
        },
        Msg::FavoriteCompleted(Ok(article)) => {
            let ghost a = article;
            let ghost before = model.articles.values@;
            match find_slug(&model.articles.values, &article.slug) {
                Some(i) => {
                    model.articles.values.set(i, article);
                    assert(before[i as int].slug.0@ == a.slug.0@);
                },
                None => {},
            }
            None
        },
        Msg::FavoriteCompleted(Err(errors)) => {
            let logged = copy_messages(&errors);
            model.errors = errors;
            Some(Order::LogErrors(logged))
        },
    }
}

} // verus!
