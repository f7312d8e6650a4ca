//! Federated single sign-on for a multi-user file library: the pending-flow cache,
//! the OpenID Connect callback state machine and the reconciliation of an external
//! identity with a local account, with the smaller rules of the web layer around them.

pub mod auth;
pub mod config;
pub mod consts;
pub mod identity;
pub mod pending;
pub mod sso;
pub mod storage;
pub mod util;
