//! The session lifecycle of an authentication service: validated credentials,
//! accounts, bearer tokens and their revocation, and a one-time second factor.
//!
//! - `email`, `password`, `two_fa`: the value types, parsed from raw strings.
//! - `user_store`, `banned_token_store`, `two_fa_code_store`: the in-process
//!   stores, each modelled as a map or a set, plus the key and record formats
//!   of their networked counterparts.
//! - `auth`: issuing and validating signed tokens, and the auth cookie.
//! - `routes`: the five use cases (signup, login, verify-2fa, logout,
//!   verify-token) over the shared state, each specified against an abstract
//!   model of it; `laws` states what holds across calls.
//! - `error`: the error taxonomy and its HTTP mapping; `report`: the text
//!   logged for an error chain; `protected`: the decisions of the demo site.

pub mod auth;
pub mod banned_token_store;
pub mod email;
pub mod error;
pub mod laws;
pub mod password;
pub mod protected;
pub mod report;
pub mod routes;
pub mod text;
pub mod two_fa;
pub mod two_fa_code_store;
pub mod user;
pub mod user_store;
