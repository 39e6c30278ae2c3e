//! The client context: an account SID plus an authentication method, built by
//! a validating two-phase builder, together with the request-side helpers that
//! a send needs — the request URL, the basic-auth pair, and the classification
//! of a transport outcome.

use vstd::prelude::*;
use vstd::string::StringExecFns;

use crate::auth::{AuthMethod, AuthMethodView};

verus! {

/// Mathematical model of a [`Client`].
pub struct ClientView {
    pub account_sid: Seq<char>,
    pub auth: AuthMethodView,
}

/// An immutable, validated client context: the provider account SID and the
/// authentication method used for every send. Only [`ClientBuilder::build`]
/// produces one.
#[derive(Debug, PartialEq)]
pub struct Client {
    account_sid: String,
    auth: AuthMethod,
}

impl View for Client {
    type V = ClientView;

    closed spec fn view(&self) -> ClientView {
        ClientView { account_sid: self.account_sid@, auth: self.auth@ }
    }
}

/// The validation errors that [`ClientBuilder::build`] can report.
#[derive(Clone, Copy, Debug, PartialEq, Eq)]
pub enum ClientBuilderError {
    /// No account SID was ever set on the builder.
    NoAccountSidSet,
    /// Neither an auth token nor an API key was ever set on the builder.
    NoAuthMethodSet,
}

/// Mathematical model of a [`ClientBuilder`]: each field that has been set so
/// far, or `None` where none was.
pub struct ClientBuilderView {
    pub account_sid: Option<Seq<char>>,
    pub auth: Option<AuthMethodView>,
}

/// The mutable accumulator from which a [`Client`] is built. Setters overwrite
/// their field; validation happens only in [`ClientBuilder::build`].
pub struct ClientBuilder {
    account_sid: Option<String>,
    auth: Option<AuthMethod>,
}

impl View for ClientBuilder {
    type V = ClientBuilderView;

    closed spec fn view(&self) -> ClientBuilderView {
        ClientBuilderView {
            account_sid: self.account_sid.deep_view(),
            auth: match &self.auth {
                Some(auth) => Some(auth@),
                None => None,
            },
        }
    }
}

/// The accumulator with nothing set, as `ClientBuilder::new` returns it.
pub open spec fn empty_client_builder() -> ClientBuilderView {
    ClientBuilderView { account_sid: None, auth: None }
}

/// The accumulator after `account_sid` stores a new SID.
pub open spec fn with_account_sid(b: ClientBuilderView, account_sid: Seq<char>) -> ClientBuilderView {
    ClientBuilderView { account_sid: Some(account_sid), auth: b.auth }
}

/// The accumulator after `auth_token` selects account-token authentication.
pub open spec fn with_auth_token(b: ClientBuilderView, token: Seq<char>) -> ClientBuilderView {
    ClientBuilderView { account_sid: b.account_sid, auth: Some(AuthMethodView::AccountAuthToken(token)) }
}

/// The accumulator after `api_key` selects key/secret authentication.
pub open spec fn with_api_key(b: ClientBuilderView, key: Seq<char>, secret: Seq<char>) -> ClientBuilderView {
    ClientBuilderView { account_sid: b.account_sid, auth: Some(AuthMethodView::APIKey(key, secret)) }
}

/// What building from a given accumulator returns: the missing account SID is
/// reported first, a missing auth method second; with both present the client
/// carries them unchanged.
pub open spec fn client_build_spec(b: ClientBuilderView) -> Result<ClientView, ClientBuilderError> {
    if b.account_sid is None {
        Err(ClientBuilderError::NoAccountSidSet)
    } else if b.auth is None {
        Err(ClientBuilderError::NoAuthMethodSet)
    } else {
        Ok(ClientView { account_sid: b.account_sid.unwrap(), auth: b.auth.unwrap() })
    }
}

/// A build result reduced to models, so contracts can compare it to
/// [`client_build_spec`].
pub open spec fn client_result_view(r: Result<Client, ClientBuilderError>) -> Result<
    ClientView,
    ClientBuilderError,
> {
    match r {
        Ok(client) => Ok(client@),
        Err(e) => Err(e),
    }
}

/// The basic-auth username a client presents: the account SID under
/// account-token authentication, the key under key/secret authentication.
pub open spec fn auth_user_spec(c: ClientView) -> Seq<char> {
    match c.auth {
        AuthMethodView::AccountAuthToken(_) => c.account_sid,
        AuthMethodView::APIKey(key, _) => key,
    }
}

/// The basic-auth password a client presents: the token under account-token
/// authentication, the secret under key/secret authentication.
pub open spec fn auth_pass_spec(c: ClientView) -> Seq<char> {
    match c.auth {
        AuthMethodView::AccountAuthToken(token) => token,
        AuthMethodView::APIKey(_, secret) => secret,
    }
}

/// The URL that one send posts to: the provider's message endpoint for the
/// client's account.
pub open spec fn messages_url_spec(account_sid: Seq<char>) -> Seq<char> {
    "https://api.twilio.com/2010-04-01/Accounts/"@ + account_sid + "/Messages.json"@
}

impl Client {
    /// A fresh client accumulator with no field set.
    pub fn builder() -> (r: ClientBuilder)
        ensures
            r@ == empty_client_builder(),
    {
        ClientBuilder::new()
    }

    /// The HTTP basic-auth pair this client sends: username then password,
    /// selected by the auth method as [`auth_user_spec`] and
    /// [`auth_pass_spec`] state.
    pub fn basic_auth(&self) -> (r: (String, String))
        ensures
            r.0@ == auth_user_spec(self@),
            r.1@ == auth_pass_spec(self@),
    {
        match &self.auth {
            AuthMethod::AccountAuthToken(token) => (self.account_sid.clone(), token.clone()),
            AuthMethod::APIKey(key, secret) => (key.clone(), secret.clone()),
        }
    }

    /// The message endpoint for this client's account, with the account SID
    /// spliced into the fixed path.
    pub fn messages_url(&self) -> (r: String)
        ensures
            r@ == messages_url_spec(self@.account_sid),
    {
        let mut url = "https://api.twilio.com/2010-04-01/Accounts/".to_owned();
        url.append(self.account_sid.as_str());
        url.append("/Messages.json");
        url
    }
}

impl ClientBuilder {
    /// A fresh accumulator with no field set.
    pub fn new() -> (r: Self)
        ensures
            r@ == empty_client_builder(),
    {
        ClientBuilder { account_sid: None, auth: None }
    }

    /// Validates the accumulated fields and returns the client context. The
    /// accumulator is read, not consumed: a failed build can be corrected and
    /// retried, and repeated builds return value-equal results.
    pub fn build(&self) -> (r: Result<Client, ClientBuilderError>)
        ensures
            client_result_view(r) == client_build_spec(self@),
    {
        let account_sid = match &self.account_sid {
            Some(sid) => sid.clone(),
            None => {
                return Err(ClientBuilderError::NoAccountSidSet);
            },
        };
        let auth = match &self.auth {
            Some(auth) => auth.duplicate(),
            None => {
                return Err(ClientBuilderError::NoAuthMethodSet);
            },
        };
        Ok(Client { account_sid, auth })
    }

    /// Stores the account SID, overwriting any earlier value.
    pub fn account_sid(&mut self, account_sid: String) -> (r: &mut Self)
        ensures
            (*r)@ == with_account_sid(old(self)@, account_sid@),
            *final(self) == *final(r),
    {
        self.account_sid = Some(account_sid);
        self
    }

    /// Selects key/secret authentication, overwriting any earlier auth method.
    pub fn api_key(&mut self, key: String, secret: String) -> (r: &mut Self)
        ensures
            (*r)@ == with_api_key(old(self)@, key@, secret@),
            *final(self) == *final(r),
    {
        self.auth = Some(AuthMethod::APIKey(key, secret));
        self
    }

    /// Selects account-token authentication, overwriting any earlier auth
    /// method.
    pub fn auth_token(&mut self, token: String) -> (r: &mut Self)
        ensures
            (*r)@ == with_auth_token(old(self)@, token@),
            *final(self) == *final(r),
    {
        self.auth = Some(AuthMethod::AccountAuthToken(token));
        self
    }
}

/// Declares reqwest's opaque error type, so that a failed HTTP exchange can be
/// carried inside [`SendError::Network`]. Nothing is assumed about its
/// contents.
#[verifier::external_type_specification]
#[verifier::external_body]
pub struct ExReqwestError(reqwest::Error);

/// The terminal outcomes of one send attempt.
#[derive(Debug)]
pub enum SendError {
    /// The HTTP exchange could not be completed at all; the transport's error
    /// is carried as the cause.
    Network(reqwest::Error),
    /// The provider answered, but with a non-success status; the numeric HTTP
    /// status code is carried verbatim.
    Provider(u16),
}

/// Classifies the outcome of one HTTP exchange: a completed exchange with a
/// 2xx status is success, any other status is a [`SendError::Provider`]
/// rejection carrying that status verbatim, and a failure to complete the
/// exchange at all is a [`SendError::Network`] failure carrying its cause.
pub fn send_outcome(transport: Result<u16, reqwest::Error>) -> (r: Result<(), SendError>)
    ensures
        match transport {
            Ok(status) => if 200 <= status < 300 {
                r == Ok::<(), SendError>(())
            } else {
                r == Err::<(), SendError>(SendError::Provider(status))
            },
            Err(cause) => r == Err::<(), SendError>(SendError::Network(cause)),
        },
{
    match transport {
        Ok(status) => {
            if 200 <= status && status < 300 {
                Ok(())
            } else {
                Err(SendError::Provider(status))
            }
        },
        Err(cause) => Err(SendError::Network(cause)),
    }
}

/// Law: with key/secret authentication the basic-auth pair is the key and the
/// secret alone; the account SID plays no part in it. Two clients that share
/// an API-key auth method present the same credentials whatever their account
/// SIDs.
pub proof fn lemma_api_key_auth_ignores_sid(c1: ClientView, c2: ClientView)
    requires
        c1.auth == c2.auth,
        c1.auth is APIKey,
    ensures
        auth_user_spec(c1) == auth_user_spec(c2),
        auth_pass_spec(c1) == auth_pass_spec(c2),
{
}

/// Law: building a client succeeds exactly when both the account SID and an
/// auth method are set; otherwise the missing account SID is reported first
/// and the missing auth method second.
pub proof fn lemma_client_build_complete(b: ClientBuilderView)
    ensures
        client_build_spec(b) is Ok <==> (b.account_sid is Some && b.auth is Some),
        client_build_spec(b) == Err::<ClientView, ClientBuilderError>(
            ClientBuilderError::NoAccountSidSet,
        ) <==> b.account_sid is None,
        client_build_spec(b) == Err::<ClientView, ClientBuilderError>(
            ClientBuilderError::NoAuthMethodSet,
        ) <==> (b.account_sid is Some && b.auth is None),
{
}

/// Law: a client build is repeatable — the result is a function of the
/// accumulator's value alone, so building twice without intervening mutation
/// yields value-equal results.
pub proof fn lemma_client_build_repeatable(b1: ClientBuilderView, b2: ClientBuilderView)
    requires
        b1 == b2,
    ensures
        client_build_spec(b1) == client_build_spec(b2),
{
}

} // verus!
