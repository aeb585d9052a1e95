//! Connecting to a server that asks for OAuth: set up the authorization
//! manager, point it at the credentials file, discover the server's metadata,
//! use stored credentials when there are any, and otherwise sign in through
//! the browser and exchange the code for a token. The caller performs each
//! step with the OAuth client and reports what came of it.

use vstd::prelude::*;
use crate::configuration::model::OAuthConfig;
use crate::oauth::callback::CallbackParams;
use crate::oauth::credentials::{resolve_credential_path, no_credentials_path_message};
use crate::oauth::error::OAuthError;
use crate::text::{decimal, u64_to_decimal, copy_strings};

verus! {

/// The address the browser is sent back to: `http://127.0.0.1:<port>`.
pub open spec fn redirect_uri_text(port: u16) -> Seq<char> {
    "http://127.0.0.1:"@ + decimal(port as nat)
}

/// Returns the redirect address for `port`.
pub fn redirect_uri(port: u16) -> (u: String)
    ensures
        u@ == redirect_uri_text(port),
{
    let mut u = String::from_str("http://127.0.0.1:");
    u.append(u64_to_decimal(port as u64).as_str());
    u
}

/// The name under which the gateway registers itself as a client.
pub open spec fn client_name() -> Seq<char> {
    "mcp-gateway"@
}

/// Where connecting stands.
#[derive(Debug, PartialEq, Eq)]
pub enum ConnectPhase {
    /// Setting up the authorization manager for the server.
    CreatingManager,
    /// Pointing it at the credentials file.
    SettingStore,
    /// Discovering the server's authorization metadata.
    DiscoveringMetadata,
    /// Loading stored credentials.
    LoadingStored,
    /// Configuring the client registered ahead.
    ConfiguringClient,
    /// Registering the gateway as a client.
    RegisteringClient,
    /// Asking for the address at which the user signs in.
    RequestingUrl,
    /// Opening the local endpoint for the redirect.
    Binding { auth_url: String },
    /// Waiting for the user to sign in at `auth_url`.
    AwaitingCallback { auth_url: String },
    /// Exchanging the code for a token.
    Exchanging { code: String, state: String },
    /// Finished: on success the caller builds the transport.
    Done(Result<(), OAuthError>),
}

/// What the caller is asked to do next.
#[derive(Debug, PartialEq, Eq)]
pub enum ConnectAction {
    CreateManager { server_url: String },
    SetCredentialStore { path: String },
    DiscoverMetadata,
    InitializeFromStore,
    ConfigureClient { client_id: String, client_secret: Option<String>, scopes: Vec<String>, redirect_uri: String },
    RegisterClient { client_name: String, redirect_uri: String, scopes: Vec<String> },
    GetAuthorizationUrl { scopes: Vec<String> },
    BindCallback { port: u16 },
    AwaitCallback { auth_url: String },
    ExchangeCode { code: String, state: String },
    Finish(Result<(), OAuthError>),
}

/// What came of the last step; failures come as their messages.
#[derive(Debug, PartialEq, Eq)]
pub enum ConnectEvent {
    ManagerCreated(Result<(), String>),
    StoreSet,
    MetadataDiscovered(Result<(), String>),
    StoredLoaded(Result<bool, String>),
    ClientReady(Result<(), String>),
    AuthorizationUrl(Result<String, String>),
    Bound(Result<(), String>),
    CallbackReceived(Result<CallbackParams, OAuthError>),
    Exchanged(Result<(), String>),
}

/// The credentials file that a configuration and a default give, if any.
pub open spec fn chosen_credentials(explicit: Option<String>, default: Option<String>) -> Option<Seq<char>> {
    match explicit {
        Some(e) => Some(e@),
        None => match default {
            Some(d) => Some(d@),
            None => None,
        },
    }
}

/// Whether `next` follows `phase` on `event` when connecting with `config`;
/// an event that does not answer the pending step changes nothing.
pub open spec fn connect_follows(config: OAuthConfig, credentials: Option<Seq<char>>, phase: ConnectPhase, event: ConnectEvent, next: ConnectPhase) -> bool {
    match (phase, event) {
        (ConnectPhase::CreatingManager, ConnectEvent::ManagerCreated(r)) => match r {
            Ok(_) => if credentials is Some {
                next == ConnectPhase::SettingStore
            } else {
                next matches ConnectPhase::Done(Err(OAuthError::CredentialStore { message }))
                    && message@ == no_credentials_path_message()
            },
            Err(m) => next == ConnectPhase::Done(Err(OAuthError::MetadataDiscovery { message: m })),
        },
        (ConnectPhase::SettingStore, ConnectEvent::StoreSet) => next == ConnectPhase::DiscoveringMetadata,
        (ConnectPhase::DiscoveringMetadata, ConnectEvent::MetadataDiscovered(r)) => match r {
            Ok(_) => next == ConnectPhase::LoadingStored,
            Err(m) => next == ConnectPhase::Done(Err(OAuthError::MetadataDiscovery { message: m })),
        },
        (ConnectPhase::LoadingStored, ConnectEvent::StoredLoaded(r)) => match r {
            Ok(true) => next matches ConnectPhase::Done(Ok(_)),
            Ok(false) => next == (if config.client_id is Some { ConnectPhase::ConfiguringClient } else { ConnectPhase::RegisteringClient }),
            Err(m) => next == ConnectPhase::Done(Err(OAuthError::CredentialStore { message: m })),
        },
        (ConnectPhase::ConfiguringClient, ConnectEvent::ClientReady(r)) => match r {
            Ok(_) => next == ConnectPhase::RequestingUrl,
            Err(m) => next == ConnectPhase::Done(Err(OAuthError::Authorization { message: m })),
        },
        (ConnectPhase::RegisteringClient, ConnectEvent::ClientReady(r)) => match r {
            Ok(_) => next == ConnectPhase::RequestingUrl,
            Err(m) => next == ConnectPhase::Done(Err(OAuthError::Authorization { message: m })),
        },
        (ConnectPhase::RequestingUrl, ConnectEvent::AuthorizationUrl(r)) => match r {
            Ok(u) => next == (ConnectPhase::Binding { auth_url: u }),
            Err(m) => next == ConnectPhase::Done(Err(OAuthError::Authorization { message: m })),
        },
        (ConnectPhase::Binding { auth_url }, ConnectEvent::Bound(r)) => match r {
            Ok(_) => next == (ConnectPhase::AwaitingCallback { auth_url }),
            Err(m) => next matches ConnectPhase::Done(Err(OAuthError::CallbackServer { message }))
                && message@ == "bind to port "@ + decimal(config.redirect_port as nat) + ": "@ + m@,
        },
        (ConnectPhase::AwaitingCallback { .. }, ConnectEvent::CallbackReceived(r)) => match r {
            Ok(p) => next == (ConnectPhase::Exchanging { code: p.code, state: p.state }),
            Err(e) => next == ConnectPhase::Done(Err(e)),
        },
        (ConnectPhase::Exchanging { .. }, ConnectEvent::Exchanged(r)) => match r {
            Ok(_) => next matches ConnectPhase::Done(Ok(_)),
            Err(m) => next == ConnectPhase::Done(Err(OAuthError::TokenExchange { message: m })),
        },
        (p, _) => next == p,
    }
}

/// Whether `action` is what `phase` asks of the caller connecting to
/// `server_url` with `config`, whose credentials go to `credentials`.
pub open spec fn connect_requested(server_url: Seq<char>, config: OAuthConfig, credentials: Option<Seq<char>>,
    phase: ConnectPhase, action: ConnectAction) -> bool {
    match phase {
        ConnectPhase::CreatingManager => action matches ConnectAction::CreateManager { server_url: u } && u@ == server_url,
        ConnectPhase::SettingStore => action matches ConnectAction::SetCredentialStore { path }
            && credentials == Some(path@),
        ConnectPhase::DiscoveringMetadata => action == ConnectAction::DiscoverMetadata,
        ConnectPhase::LoadingStored => action == ConnectAction::InitializeFromStore,
        ConnectPhase::ConfiguringClient => action matches ConnectAction::ConfigureClient { client_id, client_secret, scopes, redirect_uri }
            && config.client_id == Some(client_id) && client_secret == config.client_secret
            && scopes@ == config.scopes@ && redirect_uri@ == redirect_uri_text(config.redirect_port),
        ConnectPhase::RegisteringClient => action matches ConnectAction::RegisterClient { client_name: name, redirect_uri, scopes }
            && name@ == client_name() && redirect_uri@ == redirect_uri_text(config.redirect_port) && scopes@ == config.scopes@,
        ConnectPhase::RequestingUrl => action matches ConnectAction::GetAuthorizationUrl { scopes } && scopes@ == config.scopes@,
        ConnectPhase::Binding { .. } => action == ConnectAction::BindCallback { port: config.redirect_port },
        ConnectPhase::AwaitingCallback { auth_url } => action == ConnectAction::AwaitCallback { auth_url },
        ConnectPhase::Exchanging { code, state } => action == ConnectAction::ExchangeCode { code, state },
        ConnectPhase::Done(r) => action == ConnectAction::Finish(r),
    }
}

/// Connecting to `server_url` with `config`, with `default_credentials` as
/// the credentials file when the configuration names none.
pub struct OAuthConnect {
    pub server_url: String,
    pub config: OAuthConfig,
    pub default_credentials: Option<String>,
    pub phase: ConnectPhase,
}

fn copy_unit_result(r: &Result<(), OAuthError>) -> (c: Result<(), OAuthError>)
    ensures
        c == *r,
{
    match r {
        Ok(u) => Ok(*u),
        Err(e) => Err(e.clone()),
    }
}

impl OAuthConnect {
    /// The credentials file that connecting uses.
    pub open spec fn credentials(&self) -> Option<Seq<char>> {
        chosen_credentials(self.config.credentials_file, self.default_credentials)
    }

    fn request(&self) -> (a: ConnectAction)
        requires
            self.phase is SettingStore ==> self.credentials() is Some,
            self.phase is ConfiguringClient ==> self.config.client_id is Some,
        ensures
            connect_requested(self.server_url@, self.config, self.credentials(), self.phase, a),
    {
        proof { reveal_strlit("mcp-gateway"); }
        match &self.phase {
            ConnectPhase::CreatingManager => ConnectAction::CreateManager { server_url: self.server_url.clone() },
            ConnectPhase::SettingStore => {
                let path = match &self.config.credentials_file {
                    Some(e) => e.clone(),
                    None => match &self.default_credentials {
                        Some(d) => d.clone(),
                        None => String::new(),
                    },
                };
                ConnectAction::SetCredentialStore { path }
            },
            ConnectPhase::DiscoveringMetadata => ConnectAction::DiscoverMetadata,
            ConnectPhase::LoadingStored => ConnectAction::InitializeFromStore,
            ConnectPhase::ConfiguringClient => {
                let client_id = match &self.config.client_id {
                    Some(c) => c.clone(),
                    None => String::new(),
                };
                let client_secret = match &self.config.client_secret {
                    Some(s) => Some(s.clone()),
                    None => None,
                };
                ConnectAction::ConfigureClient {
                    client_id,
                    client_secret,
                    scopes: copy_strings(&self.config.scopes),
                    redirect_uri: redirect_uri(self.config.redirect_port),
                }
            },
            ConnectPhase::RegisteringClient => ConnectAction::RegisterClient {
                client_name: String::from_str("mcp-gateway"),
                redirect_uri: redirect_uri(self.config.redirect_port),
                scopes: copy_strings(&self.config.scopes),
            },
            ConnectPhase::RequestingUrl => ConnectAction::GetAuthorizationUrl { scopes: copy_strings(&self.config.scopes) },
            ConnectPhase::Binding { .. } => ConnectAction::BindCallback { port: self.config.redirect_port },
            ConnectPhase::AwaitingCallback { auth_url } => ConnectAction::AwaitCallback { auth_url: auth_url.clone() },
            ConnectPhase::Exchanging { code, state } => ConnectAction::ExchangeCode { code: code.clone(), state: state.clone() },
            ConnectPhase::Done(r) => ConnectAction::Finish(copy_unit_result(r)),
        }
    }

    /// Whether the machine's own facts hold: stored phases have what their
    /// step needs.
    pub open spec fn wf(&self) -> bool {
        &&& self.phase is SettingStore ==> self.credentials() is Some
        &&& self.phase is ConfiguringClient ==> self.config.client_id is Some
    }

    /// Takes in what came of the last step and returns the next one.
    pub fn step(&mut self, event: ConnectEvent) -> (a: ConnectAction)
        requires
            old(self).wf(),
        ensures
            final(self).wf(),
            final(self).server_url == old(self).server_url,
            final(self).config == old(self).config,
            final(self).default_credentials == old(self).default_credentials,
            connect_follows(old(self).config, old(self).credentials(), old(self).phase, event, final(self).phase),
            connect_requested(final(self).server_url@, final(self).config, final(self).credentials(), final(self).phase, a),
    {
        let mut phase = ConnectPhase::CreatingManager;
        std::mem::swap(&mut phase, &mut self.phase);
        let next = match (phase, event) {
            (ConnectPhase::CreatingManager, ConnectEvent::ManagerCreated(r)) => match r {
                Ok(_) => {
                    let explicit = match &self.config.credentials_file {
                        Some(e) => Some(e.as_str()),
                        None => None,
                    };
                    let default = match &self.default_credentials {
                        Some(d) => Some(d.clone()),
                        None => None,
                    };
                    match resolve_credential_path(explicit, default) {
                        Ok(_) => ConnectPhase::SettingStore,
                        Err(e) => ConnectPhase::Done(Err(e)),
                    }
                },
                Err(m) => ConnectPhase::Done(Err(OAuthError::MetadataDiscovery { message: m })),
            },
            (ConnectPhase::SettingStore, ConnectEvent::StoreSet) => ConnectPhase::DiscoveringMetadata,
            (ConnectPhase::DiscoveringMetadata, ConnectEvent::MetadataDiscovered(r)) => match r {
                Ok(_) => ConnectPhase::LoadingStored,
                Err(m) => ConnectPhase::Done(Err(OAuthError::MetadataDiscovery { message: m })),
            },
            (ConnectPhase::LoadingStored, ConnectEvent::StoredLoaded(r)) => match r {
                Ok(true) => ConnectPhase::Done(Ok(())),
                Ok(false) => if self.config.client_id.is_some() {
                    ConnectPhase::ConfiguringClient
                } else {
                    ConnectPhase::RegisteringClient
                },
                Err(m) => ConnectPhase::Done(Err(OAuthError::CredentialStore { message: m })),
            },
            (ConnectPhase::ConfiguringClient, ConnectEvent::ClientReady(r)) => match r {
                Ok(_) => ConnectPhase::RequestingUrl,
                Err(m) => ConnectPhase::Done(Err(OAuthError::Authorization { message: m })),
            },
            (ConnectPhase::RegisteringClient, ConnectEvent::ClientReady(r)) => match r {
                Ok(_) => ConnectPhase::RequestingUrl,
                Err(m) => ConnectPhase::Done(Err(OAuthError::Authorization { message: m })),
            },
            (ConnectPhase::RequestingUrl, ConnectEvent::AuthorizationUrl(r)) => match r {
                Ok(u) => ConnectPhase::Binding { auth_url: u },
                Err(m) => ConnectPhase::Done(Err(OAuthError::Authorization { message: m })),
            },
            (ConnectPhase::Binding { auth_url }, ConnectEvent::Bound(r)) => match r {
                Ok(_) => ConnectPhase::AwaitingCallback { auth_url },
                Err(m) => ConnectPhase::Done(Err(crate::oauth::callback::bind_err(self.config.redirect_port, m.as_str()))),
            },
            (ConnectPhase::AwaitingCallback { auth_url }, ConnectEvent::CallbackReceived(r)) => match r {
                Ok(p) => ConnectPhase::Exchanging { code: p.code, state: p.state },
                Err(e) => ConnectPhase::Done(Err(e)),
            },
            (ConnectPhase::Exchanging { code, state }, ConnectEvent::Exchanged(r)) => match r {
                Ok(_) => ConnectPhase::Done(Ok(())),
                Err(m) => ConnectPhase::Done(Err(OAuthError::TokenExchange { message: m })),
            },
            (p, _) => p,
        };
        self.phase = next;
        self.request()
    }
}

/// Begins connecting to `server_url` with `config`; the first step sets up
/// the authorization manager.
pub fn create_oauth_transport(server_url: String, config: OAuthConfig, default_credentials: Option<String>) -> (r: (OAuthConnect, ConnectAction))
    ensures
        r.0.server_url == server_url,
        r.0.config == config,
        r.0.default_credentials == default_credentials,
        r.0.phase == ConnectPhase::CreatingManager,
        r.0.wf(),
        connect_requested(server_url@, config, r.0.credentials(), r.0.phase, r.1),
{
    let m = OAuthConnect { server_url, config, default_credentials, phase: ConnectPhase::CreatingManager };
    let a = m.request();
    (m, a)
}

/// The number of steps left from `phase` at most.
pub open spec fn connect_remaining(phase: ConnectPhase) -> nat {
    match phase {
        ConnectPhase::CreatingManager => 10,
        ConnectPhase::SettingStore => 9,
        ConnectPhase::DiscoveringMetadata => 8,
        ConnectPhase::LoadingStored => 7,
        ConnectPhase::ConfiguringClient => 6,
        ConnectPhase::RegisteringClient => 6,
        ConnectPhase::RequestingUrl => 5,
        ConnectPhase::Binding { .. } => 4,
        ConnectPhase::AwaitingCallback { .. } => 3,
        ConnectPhase::Exchanging { .. } => 2,
        ConnectPhase::Done(_) => 0,
    }
}

/// Every event either leaves connecting where it is or takes it a step
/// further, so connecting ends after at most ten steps.
pub proof fn law_connect_progresses(config: OAuthConfig, credentials: Option<Seq<char>>, phase: ConnectPhase, event: ConnectEvent, next: ConnectPhase)
    requires
        connect_follows(config, credentials, phase, event, next),
    ensures
        next == phase || connect_remaining(next) < connect_remaining(phase),
{
}

/// The user is sent to sign in only when no stored credentials were found,
/// and the gateway registers itself only when no client was configured.
pub proof fn law_sign_in_only_without_stored(config: OAuthConfig, credentials: Option<Seq<char>>, phase: ConnectPhase, event: ConnectEvent, next: ConnectPhase)
    requires
        connect_follows(config, credentials, phase, event, next),
    ensures
        (next is ConfiguringClient || next is RegisteringClient) && next != phase ==>
            phase is LoadingStored && event == ConnectEvent::StoredLoaded(Ok(false)),
        next is RegisteringClient && next != phase ==> config.client_id is None,
        next is ConfiguringClient && next != phase ==> config.client_id is Some,
{
}

/// The code and state exchanged for a token are those the redirect carried.
pub proof fn law_exchange_uses_callback(config: OAuthConfig, credentials: Option<Seq<char>>, phase: ConnectPhase, event: ConnectEvent, code: String, state: String)
    requires
        connect_follows(config, credentials, phase, event, ConnectPhase::Exchanging { code, state }),
        !(phase is Exchanging),
    ensures
        event matches ConnectEvent::CallbackReceived(Ok(p)) && p.code == code && p.state == state,
{
}

} // verus!
