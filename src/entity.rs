//! Domain entities: the viewer, authors relative to the viewer, articles,
//! comments and their identifiers.
use crate::timestamp::Timestamp;
use vstd::prelude::*;

verus! {

/// What an authenticated request needs: the token and whose it is.
#[derive(Clone, Debug)]
pub struct Credentials {
    pub auth_token: String,
    pub username: String,
}

/// Public profile fields of a user.
#[derive(Clone, Debug)]
pub struct Profile {
    pub bio: Option<String>,
    pub image: Option<String>,
}

/// The authenticated user of this session.
#[derive(Clone, Debug)]
pub struct Viewer {
    pub credentials: Credentials,
    pub profile: Profile,
}

/// An author, classified relative to the viewer when it was decoded.
#[derive(Clone, Debug)]
pub enum Author {
    IsViewer(Credentials, Profile),
    Following(String, Profile),
    NotFollowing(String, Profile),
}

/// The unique key of an article.
#[derive(Clone, Debug)]
pub struct Slug(pub String);

/// The identifier of a comment, kept as text.
#[derive(Clone, Debug)]
pub struct CommentId(pub String);

#[derive(Clone, Debug)]
pub struct Article {
    pub title: String,
    pub slug: Slug,
    pub body: String,
    pub created_at: Timestamp,
    pub updated_at: Timestamp,
    pub tag_list: Vec<String>,
    pub description: String,
    pub author: Author,
    pub favorited: bool,
    pub favorites_count: usize,
}

#[derive(Clone, Debug)]
pub struct Comment {
    pub id: CommentId,
    pub created_at: Timestamp,
    pub updated_at: Timestamp,
    pub body: String,
    pub author: Author,
}

impl Credentials {
    /// A field-for-field copy.
    pub fn copy(&self) -> (r: Credentials)
        ensures
            r == *self,
    {
        Credentials { auth_token: self.auth_token.clone(), username: self.username.clone() }
    }
}

impl Author {
    pub open spec fn username_view(&self) -> Seq<char> {
        match self {
            Author::IsViewer(c, _) => c.username@,
            Author::Following(u, _) => u@,
            Author::NotFollowing(u, _) => u@,
        }
    }

    /// The author's user name.
    pub fn username(&self) -> (r: &String)
        ensures
            r@ == self.username_view(),
    {
        match self {
            Author::IsViewer(c, _) => &c.username,
            Author::Following(u, _) => u,
            Author::NotFollowing(u, _) => u,
        }
    }

    /// The author's profile.
    pub fn profile(&self) -> (r: &Profile)
        ensures
            r == match self {
                Author::IsViewer(_, p) => p,
                Author::Following(_, p) => p,
                Author::NotFollowing(_, p) => p,
            },
    {
        match self {
            Author::IsViewer(_, p) => p,
            Author::Following(_, p) => p,
            Author::NotFollowing(_, p) => p,
        }
    }
}

impl Slug {
    pub fn as_str(&self) -> (r: &str)
        ensures
            r@ == self.0@,
    {
        self.0.as_str()
    }

    /// Slugs are equal when their text is.
    pub fn same_as(&self, other: &Slug) -> (r: bool)
        ensures
            r == (self.0@ == other.0@),
    {
        self.0 == other.0
    }
}

impl CommentId {
    pub fn as_str(&self) -> (r: &str)
        ensures
            r@ == self.0@,
    {
        self.0.as_str()
    }
}

} // verus!
