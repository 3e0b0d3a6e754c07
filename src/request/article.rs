//! Creating and deleting articles.
use crate::decoder::{decoded_article, opt_viewer, ArticleDto};
use crate::entity::{Article, Slug, Viewer};
use crate::request::{
    new_api_request, process_article_response, request_is, response_errors, views, Method, Request,
    Response,
};
use vstd::prelude::*;

verus! {

/// The body of a response that carries one article.
pub struct RootDto {
    pub article: ArticleDto,
}

/// Publishes a new article; `body` is the JSON of the article form.
pub fn create(viewer: Option<&Viewer>, body: String) -> (r: Request)
    ensures
        request_is(r, Method::Post, "articles"@, opt_viewer(viewer), Some(body@)),
{
    new_api_request(Method::Post, "articles", viewer, Some(body))
}

/// The article that a create response carries, or the messages for the user.
pub fn created(viewer: Option<&Viewer>, response: Response<RootDto>) -> (r: Result<
    Article,
    Vec<String>,
>)
    ensures
        match response {
            Response::Success(Some(root)) => match decoded_article(root.article, opt_viewer(viewer)) {
                Ok(a) => r == Ok::<Article, Vec<String>>(a),
                Err(_) => r matches Err(e) && views(e@) == seq!["Data error"@],
            },
            _ => r matches Err(e) && views(e@) == response_errors(response),
        },
{
    let inner = match response {
        Response::NoResponse => Response::NoResponse,
        Response::Success(Some(root)) => Response::Success(Some(root.article)),
        Response::Success(None) => Response::Success(None),
        Response::Failure(m) => Response::Failure(m),
    };
    process_article_response(viewer, inner)
}

/// Deletes an article.
pub fn delete(viewer: Option<&Viewer>, slug: &Slug) -> (r: Request)
    ensures
        request_is(r, Method::Delete, "articles/"@ + slug.0@, opt_viewer(viewer), None),
{
    let mut path = String::from_str("articles/");
    path.append(slug.as_str());
    new_api_request(Method::Delete, path.as_str(), viewer, None)
}

} // verus!
