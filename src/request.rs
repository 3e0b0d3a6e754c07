//! Request descriptions for the remote API, and the classification of each
//! response into a value or a list of messages for the user.
use crate::decoder::{decoded_article, opt_viewer, ArticleDto};
use crate::entity::{Article, Slug, Viewer};
use indexmap::IndexMap;
use vstd::prelude::*;

pub mod article;
pub mod comment;
pub mod settings;

verus! {

#[verifier::external_type_specification]
#[verifier::external_body]
#[verifier::reject_recursive_types(K)]
#[verifier::reject_recursive_types(V)]
#[verifier::reject_recursive_types(S)]
pub struct ExIndexMap<K, V, S>(IndexMap<K, V, S>);

/// The entries of a server error map, in the order they were received.
pub uninterp spec fn error_fields(m: IndexMap<String, Vec<String>>) -> Seq<(Seq<char>, Seq<Seq<char>>)>;

/// Relies on IndexMap::len: the number of entries.
#[verifier::external_body]
fn field_count(m: &IndexMap<String, Vec<String>>) -> (r: usize)
    ensures
        r == error_fields(*m).len(),
{
    m.len()
}

/// Relies on IndexMap::get_index: the entry at a position, in insertion order.
#[verifier::external_body]
fn field_at(m: &IndexMap<String, Vec<String>>, i: usize) -> (r: Option<(&String, &Vec<String>)>)
    ensures
        r is Some <==> i < error_fields(*m).len(),
        r matches Some((k, v)) ==> k@ == error_fields(*m)[i as int].0 && views(v@) == error_fields(
            *m,
        )[i as int].1,
{
    m.get_index(i)
}

pub enum Method {
    Get,
    Post,
    Put,
    Delete,
}

/// An HTTP request ready to be sent.
pub struct Request {
    pub method: Method,
    pub url: String,
    /// The `Authorization` header, present when credentials are.
    pub authorization: Option<String>,
    /// A JSON body.
    pub body: Option<String>,
    pub timeout_ms: u32,
}

/// How long a request may take before it counts as a network failure.
pub const TIMEOUT_MS: u32 = 5000;

/// How a request ended, with the body already read as the expected record
/// (`None` where it was not one).
pub enum Response<T> {
    /// No response came: a transport failure or a timeout.
    NoResponse,
    /// A success status.
    Success(Option<T>),
    /// Any other status, with the server's error map.
    Failure(Option<IndexMap<String, Vec<String>>>),
}

pub open spec fn views(v: Seq<String>) -> Seq<Seq<char>> {
    v.map_values(|s: String| s@)
}

pub open spec fn api_root() -> Seq<char> {
    "https://conduit.productionready.io/api/"@
}

pub open spec fn authorization_of(viewer: Option<Viewer>) -> Option<Seq<char>> {
    match viewer {
        Some(v) => Some("Token "@ + v.credentials.auth_token@),
        None => None,
    }
}

pub open spec fn opt_view(s: Option<String>) -> Option<Seq<char>> {
    match s {
        Some(t) => Some(t@),
        None => None,
    }
}

/// The request has the method, the URL under the API root, the
/// authorization of the viewer, the body and the fixed timeout.
pub open spec fn request_is(
    r: Request,
    method: Method,
    path: Seq<char>,
    viewer: Option<Viewer>,
    body: Option<Seq<char>>,
) -> bool {
    &&& r.method == method
    &&& r.url@ == api_root() + path
    &&& opt_view(r.authorization) == authorization_of(viewer)
    &&& opt_view(r.body) == body
    &&& r.timeout_ms == TIMEOUT_MS
}

/// `messages` joined with `", "`.
pub open spec fn joined(messages: Seq<Seq<char>>) -> Seq<char>
    decreases messages.len(),
{
    if messages.len() == 0 {
        Seq::empty()
    } else if messages.len() == 1 {
        messages[0]
    } else {
        joined(messages.drop_last()) + ", "@ + messages.last()
    }
}

/// One line per field: its name, a space, and its messages joined.
pub open spec fn flattened(fields: Seq<(Seq<char>, Seq<Seq<char>>)>) -> Seq<Seq<char>> {
    fields.map_values(|f: (Seq<char>, Seq<Seq<char>>)| f.0 + " "@ + joined(f.1))
}

/// The messages that a failed response shows the user.
pub open spec fn response_errors<T>(response: Response<T>) -> Seq<Seq<char>> {
    match response {
        Response::NoResponse => seq!["Request error"@],
        Response::Success(_) => seq!["Data error"@],
        Response::Failure(Some(m)) => flattened(error_fields(m)),
        Response::Failure(None) => seq!["Data error"@],
    }
}

/// A request to the API.
pub fn new_api_request(method: Method, path: &str, viewer: Option<&Viewer>, body: Option<String>) -> (r: Request)
    ensures
        request_is(r, method, path@, opt_viewer(viewer), opt_view(body)),
{
    let mut url = String::from_str("https://conduit.productionready.io/api/");
    url.append(path);
    let authorization = match viewer {
        Some(v) => {
            let mut a = String::from_str("Token ");
            a.append(v.credentials.auth_token.as_str());
            Some(a)
        },
        None => None,
    };
    Request { method, url, authorization, body, timeout_ms: TIMEOUT_MS }
}

/// Appends `messages` joined with `", "`.
fn append_joined(out: &mut String, messages: &Vec<String>)
    ensures
        final(out)@ == old(out)@ + joined(views(messages@)),
{
    let mut i: usize = 0;
    while i < messages.len()
        invariant
            i <= messages@.len(),
            out@ == old(out)@ + joined(views(messages@.subrange(0, i as int))),
        decreases messages.len() - i,
    {
        if i > 0 {
            out.append(", ");
        }
        out.append(messages[i].as_str());
        proof {
            reveal_strlit(", ");
            let s = views(messages@.subrange(0, i + 1));
            assert(s.drop_last() =~= views(messages@.subrange(0, i as int)));
            assert(s.last() == messages@[i as int]@);
            if i == 0 {
                assert(joined(views(messages@.subrange(0, 0))) =~= Seq::empty());
            }
        }
        i = i + 1;
    }
    proof {
        assert(messages@.subrange(0, i as int) =~= messages@);
    }
}

/// The server's error map as one message per field, in the order received.
pub fn error_messages(fields: &IndexMap<String, Vec<String>>) -> (r: Vec<String>)
    ensures
        views(r@) == flattened(error_fields(*fields)),
{
    let n = field_count(fields);
    let mut r: Vec<String> = Vec::new();
    let mut i: usize = 0;
    while i < n
        invariant
            n == error_fields(*fields).len(),
            i <= n,
            views(r@) == flattened(error_fields(*fields)).subrange(0, i as int),
        decreases n - i,
    {
        match field_at(fields, i) {
            Some((k, v)) => {
                let ghost before = r@;
                let mut line = k.clone();
                line.append(" ");
                append_joined(&mut line, v);
                r.push(line);
                proof {
                    reveal_strlit(" ");
                    let f = error_fields(*fields);
                    assert(views(r@) =~= views(before).push(f[i as int].0 + " "@ + joined(f[i as int].1)));
                    assert(views(r@) =~= flattened(error_fields(*fields)).subrange(0, i + 1));
                }
            },
            None => {},
        }
        i = i + 1;
    }
    proof {
        assert(flattened(error_fields(*fields)).subrange(0, n as int) =~= flattened(
            error_fields(*fields),
        ));
    }
    r
}

fn single_message(text: &str) -> (r: Vec<String>)
    ensures
        views(r@) == seq![text@],
{
    let r = vec![String::from_str(text)];
    assert(views(r@) =~= seq![text@]);
    r
}

/// The value of a successful response, or the messages for the user.
pub fn process_response<T>(response: Response<T>) -> (r: Result<T, Vec<String>>)
    ensures
        match response {
            Response::Success(Some(x)) => r == Ok::<T, Vec<String>>(x),
            _ => r matches Err(e) && views(e@) == response_errors(response),
        },
{
    match response {
        Response::NoResponse => Err(single_message("Request error")),
        Response::Success(Some(x)) => Ok(x),
        Response::Success(None) => Err(single_message("Data error")),
        Response::Failure(Some(m)) => Err(error_messages(&m)),
        Response::Failure(None) => Err(single_message("Data error")),
    }
}

/// The article that a response carries, decoded relative to `viewer`, or
/// the messages for the user.
pub fn process_article_response(viewer: Option<&Viewer>, response: Response<ArticleDto>) -> (r:
    Result<Article, Vec<String>>)
    ensures
        match response {
            Response::Success(Some(dto)) => match decoded_article(dto, opt_viewer(viewer)) {
                Ok(a) => r == Ok::<Article, Vec<String>>(a),
                Err(_) => r matches Err(e) && views(e@) == seq!["Data error"@],
            },
            _ => r matches Err(e) && views(e@) == response_errors(response),
        },
{
    match process_response(response) {
        Ok(dto) => match dto.try_into_article(viewer) {
            Ok(a) => Ok(a),
            Err(_) => Err(single_message("Data error")),
        },
        Err(e) => Err(e),
    }
}

/// Removes the viewer's favorite mark from an article.
pub fn unfavorite(viewer: Option<&Viewer>, slug: &Slug) -> (r: Request)
    ensures
        request_is(r, Method::Delete, "articles/"@ + slug.0@ + "/favorite"@, opt_viewer(viewer), None),
{
    let mut path = String::from_str("articles/");
    path.append(slug.as_str());
    path.append("/favorite");
    new_api_request(Method::Delete, path.as_str(), viewer, None)
}

/// Marks an article as a favorite of the viewer.
pub fn favorite(viewer: Option<&Viewer>, slug: &Slug) -> (r: Request)
    ensures
        request_is(r, Method::Post, "articles/"@ + slug.0@ + "/favorite"@, opt_viewer(viewer), None),
{
    let mut path = String::from_str("articles/");
    path.append(slug.as_str());
    path.append("/favorite");
    new_api_request(Method::Post, path.as_str(), viewer, None)
}

} // verus!
