//! A small client library for sending SMS/MMS messages through a messaging
//! provider's HTTP form API.
//!
//! The library has three parts: an authentication selector ([`auth::AuthMethod`]),
//! a client context built by [`client::ClientBuilder`], and a message payload
//! built by [`message::MessageBuilder`]. Both builders validate their
//! accumulated fields only when `build` is called, and each `build` carries a
//! contract that says exactly when it succeeds and which error it returns
//! otherwise. The request-assembly logic — the ordered form-parameter list,
//! the basic-auth credential pair, the request URL, and the classification of
//! the transport outcome — is verified as well; only the HTTP exchange itself
//! lives outside the library.

pub mod auth;
pub mod client;
pub mod message;

pub use client::Client;
pub use message::Message;
