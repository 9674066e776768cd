//! A minimal OpenID Connect identity provider core: the protocol engine and
//! its security-critical state, stated in contracts and proved.
//!
//! The crate models the provider's data (users, clients, sessions,
//! authorization codes, access tokens, signing keys) as in-memory tables and
//! verifies the decision logic of every endpoint: the authorization-code
//! flow, the token exchange, UserInfo, dynamic client registration, and the
//! session and CSRF middleware. Cryptographic primitives (Argon2, RSA
//! signing) and randomness are called through narrow trusted wrappers.

pub mod auth;
pub mod authorize;
pub mod authreq;
pub mod claims;
pub mod clients;
pub mod codec;
pub mod csrf;
pub mod discovery;
pub mod errors;
pub mod keys;
pub mod links;
pub mod password;
pub mod query;
pub mod scopes;
pub mod secret;
pub mod session;
pub mod state;
pub mod store;
pub mod token;
pub mod userinfo;
pub mod users;
