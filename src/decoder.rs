//! Wire records as the server sends them, and their decoding into entities
//! relative to the current viewer.
use crate::entity::{self, Article, Author, CommentId, Profile, Slug, Viewer};
use crate::timestamp::{digit_char, digit_str, parse_timestamp, Timestamp};
use vstd::prelude::*;

verus! {

/// The author fields of an article or comment record.
#[derive(Clone, Debug)]
pub struct AuthorDto {
    pub username: String,
    pub bio: Option<String>,
    pub image: Option<String>,
    pub following: bool,
}

/// An article record.
#[derive(Clone, Debug)]
pub struct ArticleDto {
    pub title: String,
    pub slug: String,
    pub body: String,
    pub created_at: String,
    pub updated_at: String,
    pub tag_list: Vec<String>,
    pub description: String,
    pub author: AuthorDto,
    pub favorited: bool,
    pub favorites_count: usize,
}

/// A comment record.
#[derive(Clone, Debug)]
pub struct Comment {
    pub id: usize,
    pub created_at: String,
    pub updated_at: String,
    pub body: String,
    pub author: AuthorDto,
}

/// Why a record could not become an entity.
#[derive(Clone, Debug)]
pub enum DecodeError {
    /// The named field holds text that is no timestamp.
    InvalidTimestamp(String, String),
}

pub open spec fn profile_of(dto: AuthorDto) -> Profile {
    Profile { bio: dto.bio, image: dto.image }
}

/// The author that a record denotes for the given viewer: the viewer itself
/// when the names match exactly, else followed or not as the record says.
pub open spec fn author_of(dto: AuthorDto, viewer: Option<Viewer>) -> Author {
    if viewer is Some && viewer->0.credentials.username@ == dto.username@ {
        Author::IsViewer(viewer->0.credentials, profile_of(dto))
    } else if dto.following {
        Author::Following(dto.username, profile_of(dto))
    } else {
        Author::NotFollowing(dto.username, profile_of(dto))
    }
}

pub open spec fn opt_viewer(viewer: Option<&Viewer>) -> Option<Viewer> {
    match viewer {
        Some(v) => Some(*v),
        None => None,
    }
}

/// The error for a timestamp field, or the parsed timestamps of both fields.
pub open spec fn timestamps_of(created: Seq<char>, updated: Seq<char>) -> Result<
    (Timestamp, Timestamp),
    (Seq<char>, Seq<char>),
> {
    match parse_timestamp(created) {
        None => Err(("createdAt"@, created)),
        Some(c) => match parse_timestamp(updated) {
            None => Err(("updatedAt"@, updated)),
            Some(u) => Ok((c, u)),
        },
    }
}

pub open spec fn error_is(e: DecodeError, expected: (Seq<char>, Seq<char>)) -> bool {
    match e {
        DecodeError::InvalidTimestamp(f, raw) => f@ == expected.0 && raw@ == expected.1,
    }
}

/// Decimal digits of `n`, without leading zeros.
pub open spec fn decimal(n: nat) -> Seq<char>
    decreases n,
{
    if n < 10 {
        seq![digit_char(n as int)]
    } else {
        decimal(n / 10).push(digit_char(n as int % 10))
    }
}

fn append_decimal(out: &mut String, n: usize)
    ensures
        final(out)@ == old(out)@ + decimal(n as nat),
    decreases n,
{
    if n >= 10 {
        append_decimal(out, n / 10);
    }
    out.append(digit_str((n % 10) as u32));
    proof {
        if n >= 10 {
            assert(old(out)@ + decimal(n as nat) =~= old(out)@ + decimal((n / 10) as nat) + seq![
                digit_char(n as int % 10),
            ]);
        }
    }
}

/// The decimal text of `n`.
pub fn decimal_text(n: usize) -> (r: String)
    ensures
        r@ == decimal(n as nat),
{
    let mut out = String::new();
    append_decimal(&mut out, n);
    out
}

fn read_timestamps(created: &String, updated: &String) -> (r: Result<
    (Timestamp, Timestamp),
    DecodeError,
>)
    ensures
        match (r, timestamps_of(created@, updated@)) {
            (Ok(p), Ok(q)) => p == q,
            (Err(e), Err(q)) => error_is(e, q),
            _ => false,
        },
{
    let c = match Timestamp::parse(created.as_str()) {
        Some(t) => t,
        None => {
            return Err(DecodeError::InvalidTimestamp(String::from_str("createdAt"), created.clone()));
        },
    };
    let u = match Timestamp::parse(updated.as_str()) {
        Some(t) => t,
        None => {
            return Err(DecodeError::InvalidTimestamp(String::from_str("updatedAt"), updated.clone()));
        },
    };
    Ok((c, u))
}

impl AuthorDto {
    /// Classifies the author relative to `viewer`.
    pub fn into_author(self, viewer: Option<&Viewer>) -> (r: Author)
        ensures
            r == author_of(self, opt_viewer(viewer)),
    {
        let profile = Profile { bio: self.bio, image: self.image };
        if let Some(v) = viewer {
            if self.username == v.credentials.username {
                return Author::IsViewer(v.credentials.copy(), profile);
            }
        }
        if self.following {
            Author::Following(self.username, profile)
        } else {
            Author::NotFollowing(self.username, profile)
        }
    }
}

/// The article that a record denotes for the given viewer, or the field
/// name and text of the first timestamp that does not parse.
pub open spec fn decoded_article(dto: ArticleDto, viewer: Option<Viewer>) -> Result<
    Article,
    (Seq<char>, Seq<char>),
> {
    match timestamps_of(dto.created_at@, dto.updated_at@) {
        Ok((c, u)) => Ok(
            Article {
                title: dto.title,
                slug: Slug(dto.slug),
                body: dto.body,
                created_at: c,
                updated_at: u,
                tag_list: dto.tag_list,
                description: dto.description,
                author: author_of(dto.author, viewer),
                favorited: dto.favorited,
                favorites_count: dto.favorites_count,
            },
        ),
        Err(q) => Err(q),
    }
}

impl ArticleDto {
    /// The article with its author classified relative to `viewer`; fails,
    /// naming the field, where a timestamp does not parse.
    pub fn try_into_article(self, viewer: Option<&Viewer>) -> (r: Result<Article, DecodeError>)
        ensures
            match (r, decoded_article(self, opt_viewer(viewer))) {
                (Ok(a), Ok(b)) => a == b,
                (Err(e), Err(q)) => error_is(e, q),
                _ => false,
            },
    {
        let (created_at, updated_at) = match read_timestamps(&self.created_at, &self.updated_at) {
            Ok(p) => p,
            Err(e) => return Err(e),
        };
        Ok(Article {
            title: self.title,
            slug: Slug(self.slug),
            body: self.body,
            created_at,
            updated_at,
            tag_list: self.tag_list,
            description: self.description,
            author: self.author.into_author(viewer),
            favorited: self.favorited,
            favorites_count: self.favorites_count,
        })
    }
}

impl Comment {
    /// The comment with its id as decimal text and its author classified
    /// relative to `viewer`; fails, naming the field, where a timestamp does
    /// not parse.
    pub fn try_into_comment(self, viewer: Option<&Viewer>) -> (r: Result<
        entity::Comment,
        DecodeError,
    >)
        ensures
            match (r, timestamps_of(self.created_at@, self.updated_at@)) {
                (Ok(c), Ok((cr, up))) => c.id.0@ == decimal(self.id as nat) && c.created_at == cr
                    && c.updated_at == up && c.body == self.body && c.author == author_of(
                    self.author,
                    opt_viewer(viewer),
                ),
                (Err(e), Err(q)) => error_is(e, q),
                _ => false,
            },
    {
        let (created_at, updated_at) = match read_timestamps(&self.created_at, &self.updated_at) {
            Ok(p) => p,
            Err(e) => return Err(e),
        };
        Ok(entity::Comment {
            id: CommentId(decimal_text(self.id)),
            body: self.body,
            created_at,
            updated_at,
            author: self.author.into_author(viewer),
        })
    }
}

/// For a different user, the follow flag alone decides between followed and
/// not followed; for the viewer's own name the result is the viewer, whatever
/// the flag says.
pub proof fn lemma_author_classification(dto: AuthorDto, viewer: Viewer)
    ensures
        viewer.credentials.username@ != dto.username@ && dto.following ==> author_of(
            dto,
            Some(viewer),
        ) is Following,
        viewer.credentials.username@ != dto.username@ ==> author_of(
            AuthorDto { following: false, ..dto },
            Some(viewer),
        ) is NotFollowing,
        viewer.credentials.username@ == dto.username@ ==> author_of(
            AuthorDto { following: true, ..dto },
            Some(viewer),
        ) == Author::IsViewer(viewer.credentials, profile_of(dto)) && author_of(
            AuthorDto { following: false, ..dto },
            Some(viewer),
        ) == Author::IsViewer(viewer.credentials, profile_of(dto)),
{
}

} // verus!
