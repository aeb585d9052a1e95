//! Signing in to an HTTP server with OAuth: the local callback that receives
//! the authorization code, where credentials are kept, and the order of the
//! steps of the authorization.

pub mod error;
pub mod callback;
pub mod credentials;
pub mod flow;
