//! Failures of serving the gateway or reaching a server behind it.

use vstd::prelude::*;
use crate::configuration::error::{ConfigError, config_error_message};
use crate::oauth::error::{OAuthError, oauth_error_message};
use crate::registry::{RegistryError, registry_error_message};
use crate::text::{decimal, u64_to_decimal};

verus! {

#[derive(Debug, Clone, PartialEq, Eq)]
pub enum ProxyError {
    /// A server's command could not be started; `message` says why.
    UpstreamSpawn { message: String },
    UpstreamInit { message: String },
    DownstreamInit { message: String },
    HttpTransport { message: String },
    PortInUse { port: u16, message: String },
    OAuthAuth { message: String },
    Config(ConfigError),
    Registry(RegistryError),
}

/// The message shown for each failure.
pub open spec fn proxy_error_message(e: ProxyError) -> Seq<char> {
    match e {
        ProxyError::UpstreamSpawn { .. } => "failed to spawn upstream server"@,
        ProxyError::UpstreamInit { message } => "upstream server initialization failed: "@ + message@,
        ProxyError::DownstreamInit { message } => "downstream server initialization failed: "@ + message@,
        ProxyError::HttpTransport { message } => "invalid HTTP header: "@ + message@,
        ProxyError::PortInUse { port, message } => "port "@ + decimal(port as nat) + " is already in use: "@ + message@,
        ProxyError::OAuthAuth { message } => "OAuth authentication failed: "@ + message@,
        ProxyError::Config(e) => config_error_message(e),
        ProxyError::Registry(e) => registry_error_message(e),
    }
}

fn prefixed(prefix: &str, message: &str) -> (s: String)
    ensures
        s@ == prefix@ + message@,
{
    let mut s = String::from_str(prefix);
    s.append(message);
    s
}

impl ProxyError {
    /// The message shown to the user.
    pub fn to_string(&self) -> (s: String)
        ensures
            s@ == proxy_error_message(*self),
    {
        match self {
            ProxyError::UpstreamSpawn { .. } => String::from_str("failed to spawn upstream server"),
            ProxyError::UpstreamInit { message } => prefixed("upstream server initialization failed: ", message.as_str()),
            ProxyError::DownstreamInit { message } => prefixed("downstream server initialization failed: ", message.as_str()),
            ProxyError::HttpTransport { message } => prefixed("invalid HTTP header: ", message.as_str()),
            ProxyError::PortInUse { port, message } => {
                let mut s = String::from_str("port ");
                s.append(u64_to_decimal(*port as u64).as_str());
                s.append(" is already in use: ");
                s.append(message.as_str());
                s
            },
            ProxyError::OAuthAuth { message } => prefixed("OAuth authentication failed: ", message.as_str()),
            ProxyError::Config(e) => e.to_string(),
            ProxyError::Registry(e) => e.to_string(),
        }
    }

    /// The failure for a sign-in that failed: its message, under the OAuth
    /// variant.
    pub fn from_oauth(err: OAuthError) -> (p: Self)
        ensures
            p matches ProxyError::OAuthAuth { message } && message@ == oauth_error_message(err),
    {
        ProxyError::OAuthAuth { message: err.to_string() }
    }
}

impl From<OAuthError> for ProxyError {
    /// As `ProxyError::from_oauth`.
    fn from(err: OAuthError) -> (p: Self) {
        ProxyError::from_oauth(err)
    }
}

impl vstd::std_specs::convert::FromSpecImpl<OAuthError> for ProxyError {
    /// The converted message is a `String`, which no spec expression here
    /// builds from text, so the conversion is stated on `from_oauth` instead.
    open spec fn obeys_from_spec() -> bool {
        false
    }

    open spec fn from_spec(err: OAuthError) -> Self {
        ProxyError::OAuthAuth { message: vstd::pervasive::arbitrary() }
    }
}

impl From<ConfigError> for ProxyError {
    fn from(err: ConfigError) -> (p: Self) {
        ProxyError::Config(err)
    }
}

impl vstd::std_specs::convert::FromSpecImpl<ConfigError> for ProxyError {
    open spec fn obeys_from_spec() -> bool {
        true
    }

    open spec fn from_spec(err: ConfigError) -> Self {
        ProxyError::Config(err)
    }
}

impl From<RegistryError> for ProxyError {
    fn from(err: RegistryError) -> (p: Self) {
        ProxyError::Registry(err)
    }
}

impl vstd::std_specs::convert::FromSpecImpl<RegistryError> for ProxyError {
    open spec fn obeys_from_spec() -> bool {
        true
    }

    open spec fn from_spec(err: RegistryError) -> Self {
        ProxyError::Registry(err)
    }
}

} // verus!
