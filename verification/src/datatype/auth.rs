use vstd::prelude::*;
use crate::datatype::access_token::{AccessToken, AccessTokenView};
use crate::datatype::client_credentials::{ClientId, ClientSecret};

verus! {

/// How an outbound HTTP request is to be decorated.
#[derive(Clone, Debug, PartialEq, Eq)]
pub enum Auth {
    /// Nothing is added.
    NoAuth,
    /// The client's id and secret, to obtain a token.
    Credentials(ClientId, ClientSecret),
    /// The bearer token.
    Token(AccessToken),
}

/// What an `Auth` holds, as plain values.
pub enum AuthView {
    NoAuth,
    Credentials(Seq<char>, Seq<char>),
    Token(AccessTokenView),
}

impl View for Auth {
    type V = AuthView;

    open spec fn view(&self) -> AuthView {
        match self {
            Auth::NoAuth => AuthView::NoAuth,
            Auth::Credentials(id, secret) => AuthView::Credentials(id.0@, secret.0@),
            Auth::Token(token) => AuthView::Token(token@),
        }
    }
}

impl Auth {
    /// A copy that holds the same values.
    pub fn duplicate(&self) -> (copy: Auth)
        ensures
            copy@ == self@,
    {
        match self {
            Auth::NoAuth => Auth::NoAuth,
            Auth::Credentials(id, secret) => Auth::Credentials(
                ClientId(id.0.clone()),
                ClientSecret(secret.0.clone()),
            ),
            Auth::Token(token) => Auth::Token(token.duplicate()),
        }
    }
}

} // verus!
