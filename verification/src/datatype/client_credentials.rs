use vstd::prelude::*;

verus! {

#[derive(Clone, Debug, PartialEq, Eq)]
pub struct ClientId(pub String);

#[derive(Clone, Debug, PartialEq, Eq)]
pub struct ClientSecret(pub String);

/// What a client shows the authentication server to obtain a token.
#[derive(Clone, Debug, PartialEq, Eq)]
pub struct ClientCredentials {
    pub id: ClientId,
    pub secret: ClientSecret,
}

} // verus!
