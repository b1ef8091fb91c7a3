//! Client library for the Twitch v5 ("kraken") REST API.
//!
//! The verified core holds the OAuth scopes and the authorization-URL
//! builder, the credential model with its TOML form, the composition of
//! authenticated requests, and the decisions that turn a response body into a
//! result or one of the library's errors.
use vstd::prelude::*;

pub mod auth;
pub mod credentials;
pub mod client;

pub use client::{new, TwitchClient, TwitchResult};
pub use credentials::Credentials;

verus! {

} // verus!
