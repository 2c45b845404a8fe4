//! Obtaining a token by the client-credentials grant of OAuth2.

use vstd::prelude::*;
use crate::datatype::method::Method;
use crate::datatype::url::Url;
use crate::ota_plus::{BackendRequest, BackendRequestView, Body, BodyView};

verus! {

/// The request that asks the server at `server` for a token.
pub open spec fn token_request(server: Seq<char>) -> BackendRequestView {
    BackendRequestView { method: Method::Post, url: server, body: BodyView::Empty }
}

/// The request that asks for a token: a POST without a body to the token
/// endpoint of the authentication server. The client's id and secret travel
/// with it as its decoration; the answer is an `AccessToken` as JSON.
pub fn authenticate(server: Url) -> (request: BackendRequest)
    ensures
        request@ == token_request(server@),
{
    BackendRequest { method: Method::Post, url: server, body: Body::Empty }
}

} // verus!
