use mcp_gateway::configuration::model::{HttpConfig, McpServerEntry, StdioConfig};
use mcp_gateway::oauth::credentials::credentials_to_clear_in;
use mcp_gateway::strmap::StrMap;
use mcp_gateway::configuration::model::OAuthConfig;
use mcp_gateway::oauth::callback::{
    accept_err, answer_callback, bind_err, callback_params_from_pairs, parse_callback_params, query_of_request, read_err,
    timeout_err, CallbackParams,
};
use mcp_gateway::oauth::credentials::{resolve_credential_path, FileCredentialStore};
use mcp_gateway::oauth::error::OAuthError;
use mcp_gateway::oauth::flow::{create_oauth_transport, redirect_uri, ConnectAction, ConnectEvent};

fn pairs(items: &[(&str, &str)]) -> Vec<(String, String)> {
    items.iter().map(|(k, v)| (k.to_string(), v.to_string())).collect()
}

#[test]
fn oauth_error_messages() {
    let m = |e: OAuthError| e.to_string();
    assert_eq!(m(OAuthError::MetadataDiscovery { message: "a".into() }), "metadata discovery failed: a");
    assert_eq!(m(OAuthError::Authorization { message: "b".into() }), "authorization failed: b");
    assert_eq!(m(OAuthError::TokenExchange { message: "c".into() }), "token exchange failed: c");
    assert_eq!(m(OAuthError::CallbackServer { message: "d".into() }), "callback server failed: d");
    assert_eq!(m(OAuthError::CredentialStore { message: "e".into() }), "credential store error: e");
    assert_eq!(m(OAuthError::Transport { message: "f".into() }), "transport error: f");
}

#[test]
fn parses_code_and_state() {
    let p = parse_callback_params("GET /callback?code=abc&state=xyz HTTP/1.1\r\nHost: localhost\r\n\r\n").unwrap();
    assert_eq!(p, CallbackParams { code: "abc".to_string(), state: "xyz".to_string() });
}

#[test]
fn decodes_percent_and_plus() {
    let p = parse_callback_params("GET /?state=a%20b&code=x+y HTTP/1.1\r\n").unwrap();
    assert_eq!(p.code, "x y");
    assert_eq!(p.state, "a b");
}

#[test]
fn missing_code_or_state_is_none() {
    assert!(parse_callback_params("GET /callback?code=abc HTTP/1.1\r\n").is_none());
    assert!(parse_callback_params("GET /callback HTTP/1.1\r\n").is_none());
    assert!(parse_callback_params("").is_none());
    assert!(parse_callback_params("GET\r\n").is_none());
}

#[test]
fn last_value_wins() {
    let p = callback_params_from_pairs(&pairs(&[("code", "1"), ("state", "s"), ("code", "2"), ("other", "o")])).unwrap();
    assert_eq!(p.code, "2");
    assert_eq!(p.state, "s");
    assert!(callback_params_from_pairs(&pairs(&[("state", "s")])).is_none());
}

#[test]
fn query_is_between_first_and_second_question_mark() {
    assert_eq!(query_of_request("GET /cb?a=1?b=2 HTTP/1.1").as_deref(), Some("a=1"));
    assert_eq!(query_of_request("GET  \t /cb?x=y HTTP/1.1\nnext").as_deref(), Some("x=y"));
    assert_eq!(query_of_request("\nGET /cb?x=y HTTP/1.1"), None);
}

#[test]
fn answers_with_pages() {
    let ok = answer_callback("GET /?code=c&state=s HTTP/1.1\r\n");
    assert!(ok.response.starts_with("HTTP/1.1 200 OK\r\n"));
    assert_eq!(ok.outcome, Ok(CallbackParams { code: "c".to_string(), state: "s".to_string() }));
    let bad = answer_callback("GET / HTTP/1.1\r\n");
    assert!(bad.response.starts_with("HTTP/1.1 400 Bad Request\r\n"));
    assert_eq!(
        bad.outcome,
        Err(OAuthError::CallbackServer { message: "missing code or state parameter".to_string() })
    );
}

#[test]
fn callback_errors() {
    assert_eq!(bind_err(9876, "in use").to_string(), "callback server failed: bind to port 9876: in use");
    assert_eq!(timeout_err().to_string(), "callback server failed: timed out waiting for authorization callback");
    assert_eq!(accept_err("x").to_string(), "callback server failed: accept connection: x");
    assert_eq!(read_err("y").to_string(), "callback server failed: read request: y");
}

#[test]
fn credential_paths() {
    assert_eq!(FileCredentialStore::path_in("/h", "srv"), "/h/.mcp-gateway/credentials/srv.json");
    assert_eq!(FileCredentialStore::new("/tmp/c.json".to_string()).path(), "/tmp/c.json");
    assert_eq!(resolve_credential_path(Some("/x.json"), Some("/d.json".to_string())), Ok("/x.json".to_string()));
    assert_eq!(resolve_credential_path(None, Some("/d.json".to_string())), Ok("/d.json".to_string()));
    assert_eq!(
        resolve_credential_path(None, None),
        Err(OAuthError::CredentialStore { message: "cannot determine credentials path".to_string() })
    );
}

fn config(client_id: Option<&str>) -> OAuthConfig {
    OAuthConfig {
        client_id: client_id.map(|s| s.to_string()),
        client_secret: None,
        scopes: vec!["read".to_string()],
        redirect_port: 9876,
        credentials_file: None,
    }
}

#[test]
fn connect_uses_stored_credentials() {
    let (mut c, a) = create_oauth_transport("https://s".to_string(), config(None), Some("/d.json".to_string()));
    assert_eq!(a, ConnectAction::CreateManager { server_url: "https://s".to_string() });
    assert_eq!(c.step(ConnectEvent::ManagerCreated(Ok(()))), ConnectAction::SetCredentialStore { path: "/d.json".to_string() });
    assert_eq!(c.step(ConnectEvent::StoreSet), ConnectAction::DiscoverMetadata);
    assert_eq!(c.step(ConnectEvent::MetadataDiscovered(Ok(()))), ConnectAction::InitializeFromStore);
    assert_eq!(c.step(ConnectEvent::StoredLoaded(Ok(true))), ConnectAction::Finish(Ok(())));
}

#[test]
fn connect_registers_and_signs_in() {
    let (mut c, _) = create_oauth_transport("https://s".to_string(), config(None), Some("/d.json".to_string()));
    c.step(ConnectEvent::ManagerCreated(Ok(())));
    c.step(ConnectEvent::StoreSet);
    c.step(ConnectEvent::MetadataDiscovered(Ok(())));
    assert_eq!(
        c.step(ConnectEvent::StoredLoaded(Ok(false))),
        ConnectAction::RegisterClient {
            client_name: "mcp-gateway".to_string(),
            redirect_uri: "http://127.0.0.1:9876".to_string(),
            scopes: vec!["read".to_string()],
        }
    );
    assert_eq!(c.step(ConnectEvent::ClientReady(Ok(()))), ConnectAction::GetAuthorizationUrl { scopes: vec!["read".to_string()] });
    assert_eq!(c.step(ConnectEvent::AuthorizationUrl(Ok("https://auth".to_string()))), ConnectAction::BindCallback { port: 9876 });
    assert_eq!(c.step(ConnectEvent::Bound(Ok(()))), ConnectAction::AwaitCallback { auth_url: "https://auth".to_string() });
    let p = CallbackParams { code: "c".to_string(), state: "s".to_string() };
    assert_eq!(
        c.step(ConnectEvent::CallbackReceived(Ok(p))),
        ConnectAction::ExchangeCode { code: "c".to_string(), state: "s".to_string() }
    );
    assert_eq!(c.step(ConnectEvent::Exchanged(Ok(()))), ConnectAction::Finish(Ok(())));
}

#[test]
fn connect_configures_known_client() {
    let (mut c, _) = create_oauth_transport("https://s".to_string(), config(Some("id")), Some("/d.json".to_string()));
    c.step(ConnectEvent::ManagerCreated(Ok(())));
    c.step(ConnectEvent::StoreSet);
    c.step(ConnectEvent::MetadataDiscovered(Ok(())));
    assert_eq!(
        c.step(ConnectEvent::StoredLoaded(Ok(false))),
        ConnectAction::ConfigureClient {
            client_id: "id".to_string(),
            client_secret: None,
            scopes: vec!["read".to_string()],
            redirect_uri: "http://127.0.0.1:9876".to_string(),
        }
    );
}

#[test]
fn connect_failures() {
    let (mut c, _) = create_oauth_transport("https://s".to_string(), config(None), None);
    assert_eq!(
        c.step(ConnectEvent::ManagerCreated(Ok(()))),
        ConnectAction::Finish(Err(OAuthError::CredentialStore { message: "cannot determine credentials path".to_string() }))
    );
    let (mut c, _) = create_oauth_transport("https://s".to_string(), config(None), None);
    assert_eq!(
        c.step(ConnectEvent::ManagerCreated(Err("no meta".to_string()))),
        ConnectAction::Finish(Err(OAuthError::MetadataDiscovery { message: "no meta".to_string() }))
    );
    let (mut c, _) = create_oauth_transport("https://s".to_string(), config(Some("id")), Some("/d".to_string()));
    c.step(ConnectEvent::ManagerCreated(Ok(())));
    c.step(ConnectEvent::StoreSet);
    c.step(ConnectEvent::MetadataDiscovered(Ok(())));
    c.step(ConnectEvent::StoredLoaded(Ok(false)));
    c.step(ConnectEvent::ClientReady(Ok(())));
    c.step(ConnectEvent::AuthorizationUrl(Ok("u".to_string())));
    assert_eq!(
        c.step(ConnectEvent::Bound(Err("in use".to_string()))),
        ConnectAction::Finish(Err(OAuthError::CallbackServer { message: "bind to port 9876: in use".to_string() }))
    );
}

#[test]
fn redirect_address() {
    assert_eq!(redirect_uri(9876), "http://127.0.0.1:9876");
}

#[test]
fn default_path_contains_server_name() {
    let path = FileCredentialStore::default_path("my-server").unwrap();
    assert!(path.contains("my-server.json"));
    assert!(path.contains(".mcp-gateway"));
    assert!(path.contains("credentials"));
}

fn clear_servers() -> StrMap<McpServerEntry> {
    let http = |auth: Option<OAuthConfig>| {
        McpServerEntry::Http(HttpConfig {
            url: "https://x.com".to_string(),
            headers: StrMap::new(),
            allowed_operations: vec![],
            denied_operations: vec![],
            auth,
        })
    };
    let mut own = OAuthConfig::default();
    own.credentials_file = Some("/keys/b.json".to_string());
    let mut m = StrMap::new();
    m.insert("a".to_string(), http(None));
    m.insert("b".to_string(), http(Some(own)));
    m.insert(
        "c".to_string(),
        McpServerEntry::Stdio(StdioConfig {
            command: "echo".to_string(),
            args: vec![],
            env: StrMap::new(),
            allowed_operations: vec![],
            denied_operations: vec![],
        }),
    );
    m
}

#[test]
fn clearing_one_server_removes_its_file_and_refuses_others() {
    let m = clear_servers();
    assert_eq!(
        credentials_to_clear_in(&m, Some("a"), false, Some("/home/u")).unwrap(),
        vec!["/home/u/.mcp-gateway/credentials/a.json"]
    );
    assert_eq!(credentials_to_clear_in(&m, Some("b"), false, None).unwrap(), vec!["/keys/b.json"]);
    assert_eq!(credentials_to_clear_in(&m, Some("c"), true, Some("/h")).unwrap_err(), "server 'c' does not use OAuth");
    assert_eq!(credentials_to_clear_in(&m, Some("a"), false, None).unwrap_err(), "server 'a' does not use OAuth");
    assert_eq!(credentials_to_clear_in(&m, Some("z"), false, Some("/h")).unwrap_err(), "server 'z' not found");
}

#[test]
fn clearing_all_needs_force_and_covers_every_credentials_file() {
    let m = clear_servers();
    assert_eq!(credentials_to_clear_in(&m, None, false, Some("/h")).unwrap_err(), "clearing all credentials needs --force");
    assert_eq!(
        credentials_to_clear_in(&m, None, true, Some("/h")).unwrap(),
        vec!["/h/.mcp-gateway/credentials/a.json", "/keys/b.json"]
    );
    assert_eq!(credentials_to_clear_in(&m, None, true, None).unwrap(), vec!["/keys/b.json"]);
}
