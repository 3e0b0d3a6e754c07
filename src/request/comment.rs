//! Deleting comments.
use crate::decoder::opt_viewer;
use crate::entity::{CommentId, Slug, Viewer};
use crate::request::{new_api_request, request_is, Method, Request};
use vstd::prelude::*;

verus! {

/// Deletes a comment of an article.
pub fn delete(viewer: Option<&Viewer>, slug: &Slug, comment_id: &CommentId) -> (r: Request)
    ensures
        request_is(
            r,
            Method::Delete,
            "articles/"@ + slug.0@ + "/comments/"@ + comment_id.0@,
            opt_viewer(viewer),
            None,
        ),
{
    let mut path = String::from_str("articles/");
    path.append(slug.as_str());
    path.append("/comments/");
    path.append(comment_id.as_str());
    new_api_request(Method::Delete, path.as_str(), viewer, None)
}

} // verus!
