//! Serving the gateway and reaching the servers behind it: the failures of
//! doing so, and the headers and sign-in settings the HTTP transports use.

pub mod error;
pub mod transport;
pub mod local_auth;
