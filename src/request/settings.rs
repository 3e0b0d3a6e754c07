//! Updating the viewer's settings.
use crate::decoder::opt_viewer;
use crate::entity::Viewer;
use crate::request::{new_api_request, request_is, Method, Request};
use vstd::prelude::*;

verus! {

/// Saves the settings form; `body` is its JSON.
pub fn update(viewer: Option<&Viewer>, body: String) -> (r: Request)
    ensures
        request_is(r, Method::Put, "user"@, opt_viewer(viewer), Some(body@)),
{
    new_api_request(Method::Put, "user", viewer, Some(body))
}

} // verus!
