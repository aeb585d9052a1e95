//! Failures of the OAuth sign-in, with the messages shown to the user.

use vstd::prelude::*;

verus! {

#[derive(Debug, PartialEq, Eq)]
pub enum OAuthError {
    MetadataDiscovery { message: String },
    Authorization { message: String },
    TokenExchange { message: String },
    CallbackServer { message: String },
    CredentialStore { message: String },
    Transport { message: String },
}

/// The message shown for each failure.
pub open spec fn oauth_error_message(e: OAuthError) -> Seq<char> {
    match e {
        OAuthError::MetadataDiscovery { message } => "metadata discovery failed: "@ + message@,
        OAuthError::Authorization { message } => "authorization failed: "@ + message@,
        OAuthError::TokenExchange { message } => "token exchange failed: "@ + message@,
        OAuthError::CallbackServer { message } => "callback server failed: "@ + message@,
        OAuthError::CredentialStore { message } => "credential store error: "@ + message@,
        OAuthError::Transport { message } => "transport error: "@ + message@,
    }
}

fn prefixed(prefix: &str, message: &str) -> (s: String)
    ensures
        s@ == prefix@ + message@,
{
    let mut s = String::from_str(prefix);
    s.append(message);
    s
}

impl Clone for OAuthError {
    fn clone(&self) -> (c: Self)
        ensures
            c == *self,
    {
        match self {
            OAuthError::MetadataDiscovery { message } => OAuthError::MetadataDiscovery { message: message.clone() },
            OAuthError::Authorization { message } => OAuthError::Authorization { message: message.clone() },
            OAuthError::TokenExchange { message } => OAuthError::TokenExchange { message: message.clone() },
            OAuthError::CallbackServer { message } => OAuthError::CallbackServer { message: message.clone() },
            OAuthError::CredentialStore { message } => OAuthError::CredentialStore { message: message.clone() },
            OAuthError::Transport { message } => OAuthError::Transport { message: message.clone() },
        }
    }
}

impl OAuthError {
    /// The message shown to the user.
    pub fn to_string(&self) -> (s: String)
        ensures
            s@ == oauth_error_message(*self),
    {
        match self {
            OAuthError::MetadataDiscovery { message } => prefixed("metadata discovery failed: ", message.as_str()),
            OAuthError::Authorization { message } => prefixed("authorization failed: ", message.as_str()),
            OAuthError::TokenExchange { message } => prefixed("token exchange failed: ", message.as_str()),
            OAuthError::CallbackServer { message } => prefixed("callback server failed: ", message.as_str()),
            OAuthError::CredentialStore { message } => prefixed("credential store error: ", message.as_str()),
            OAuthError::Transport { message } => prefixed("transport error: ", message.as_str()),
        }
    }
}

} // verus!
