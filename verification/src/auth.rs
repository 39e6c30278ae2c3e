//! The authentication method attached to a client context.

use vstd::prelude::*;

verus! {

/// Mathematical model of an [`AuthMethod`]: each credential string is carried
/// as its sequence of characters.
pub enum AuthMethodView {
    AccountAuthToken(Seq<char>),
    APIKey(Seq<char>, Seq<char>),
}

/// One of the two mutually exclusive authentication schemes the provider
/// accepts: the account's shared auth token, which is paired with the account
/// SID for HTTP basic auth, or an API key and secret, which form the basic-auth
/// pair on their own. Exactly one variant is active; credential contents are
/// not validated locally.
#[derive(Clone, Debug, PartialEq)]
pub enum AuthMethod {
    AccountAuthToken(String),
    APIKey(String, String),
}

impl View for AuthMethod {
    type V = AuthMethodView;

    open spec fn view(&self) -> AuthMethodView {
        match self {
            AuthMethod::AccountAuthToken(token) => AuthMethodView::AccountAuthToken(token@),
            AuthMethod::APIKey(key, secret) => AuthMethodView::APIKey(key@, secret@),
        }
    }
}

impl AuthMethod {
    /// An owned copy whose credential strings are equal to this one's.
    pub fn duplicate(&self) -> (r: AuthMethod)
        ensures
            r == *self,
    {
        match self {
            AuthMethod::AccountAuthToken(token) => AuthMethod::AccountAuthToken(token.clone()),
            AuthMethod::APIKey(key, secret) => AuthMethod::APIKey(key.clone(), secret.clone()),
        }
    }
}

} // verus!
