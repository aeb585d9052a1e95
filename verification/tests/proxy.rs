use mcp_gateway::configuration::error::ConfigError;
use mcp_gateway::configuration::model::{HttpConfig, OAuthConfig};
use mcp_gateway::oauth::error::OAuthError;
use mcp_gateway::proxy::error::ProxyError;
use mcp_gateway::proxy::transport::{custom_headers, oauth_settings};
use mcp_gateway::registry::RegistryError;
use mcp_gateway::strmap::StrMap;

#[test]
fn upstream_spawn_display() {
    let err = ProxyError::UpstreamSpawn { message: "not found".to_string() };
    assert!(err.to_string().contains("spawn"));
}

#[test]
fn upstream_init_display() {
    let err = ProxyError::UpstreamInit { message: "handshake failed".to_string() };
    assert!(err.to_string().contains("handshake failed"));
}

#[test]
fn downstream_init_display() {
    let err = ProxyError::DownstreamInit { message: "bind failed".to_string() };
    assert!(err.to_string().contains("bind failed"));
}

#[test]
fn http_transport_display() {
    let err = ProxyError::HttpTransport { message: "bad header".to_string() };
    assert!(err.to_string().contains("bad header"));
    assert!(err.to_string().contains("HTTP header"));
}

#[test]
fn port_in_use_display() {
    let err = ProxyError::PortInUse { port: 8080, message: "address in use".to_string() };
    assert!(err.to_string().contains("8080"));
    assert!(err.to_string().contains("address in use"));
}

#[test]
fn config_error_converts() {
    let config_err = ConfigError::Io { path: "/tmp/test".to_string(), message: "missing".to_string() };
    let proxy_err = ProxyError::from(config_err);
    assert!(matches!(proxy_err, ProxyError::Config(_)));
    assert!(proxy_err.to_string().contains("/tmp/test"));
}

#[test]
fn registry_error_converts() {
    let reg_err = RegistryError::NotFound { name: "test".to_string() };
    let proxy_err = ProxyError::from(reg_err);
    assert!(matches!(proxy_err, ProxyError::Registry(_)));
    assert!(proxy_err.to_string().contains("test"));
}

#[test]
fn oauth_auth_display() {
    let err = ProxyError::OAuthAuth { message: "token expired".to_string() };
    assert!(err.to_string().contains("OAuth"));
    assert!(err.to_string().contains("token expired"));
}

#[test]
fn oauth_error_converts() {
    let oauth_err = OAuthError::MetadataDiscovery { message: "no endpoint".to_string() };
    let proxy_err = ProxyError::from(oauth_err);
    assert!(matches!(proxy_err, ProxyError::OAuthAuth { .. }));
    assert!(proxy_err.to_string().contains("no endpoint"));
}

#[test]
fn proxy_messages_exact() {
    assert_eq!(
        ProxyError::PortInUse { port: 1, message: "m".to_string() }.to_string(),
        "port 1 is already in use: m"
    );
    assert_eq!(
        ProxyError::from_oauth(OAuthError::Transport { message: "t".to_string() }).to_string(),
        "OAuth authentication failed: transport error: t"
    );
    assert_eq!(
        ProxyError::Config(ConfigError::Parse { path: "/c".to_string(), message: "eof".to_string() }).to_string(),
        "failed to parse config from /c: eof"
    );
    assert_eq!(ProxyError::Registry(RegistryError::AlreadyExists { name: "s".to_string() }).to_string(), "server 's' already exists");
}

fn headers(items: &[(&str, &str)]) -> StrMap<String> {
    let mut m = StrMap::new();
    for (k, v) in items {
        m.insert(k.to_string(), v.to_string());
    }
    m
}

#[test]
fn create_http_transport_valid_headers() {
    let h = custom_headers(&headers(&[("Authorization", "Bearer tok"), ("X-Custom", "1")])).unwrap();
    assert_eq!(h.len(), 2);
    assert_eq!(h[0].0, "authorization");
    assert_eq!(h[0].1, "Bearer tok");
    assert_eq!(h[1], ("x-custom".to_string(), "1".to_string()));
    assert!(custom_headers(&StrMap::new()).unwrap().is_empty());
}

#[test]
fn header_values_keep_spaces_tabs_and_non_ascii() {
    let h = custom_headers(&headers(&[("X-Note", "a\tb c \u{e9}")])).unwrap();
    assert_eq!(h, vec![("x-note".to_string(), "a\tb c \u{e9}".to_string())]);
    let r = custom_headers(&headers(&[("X-Del", "a\u{7f}")]));
    assert_eq!(r.unwrap_err(), ProxyError::HttpTransport { message: "failed to parse header value".to_string() });
}

#[test]
fn header_name_of_one_token_character_is_accepted_and_empty_is_refused() {
    assert_eq!(custom_headers(&headers(&[("~", "v")])).unwrap()[0].0, "~");
    let r = custom_headers(&headers(&[("", "v")]));
    assert_eq!(r.unwrap_err(), ProxyError::HttpTransport { message: "invalid HTTP header name".to_string() });
}

#[test]
fn create_http_transport_invalid_header_name_returns_error() {
    let r = custom_headers(&headers(&[("bad header", "v")]));
    assert_eq!(r.unwrap_err(), ProxyError::HttpTransport { message: "invalid HTTP header name".to_string() });
}

#[test]
fn create_http_transport_invalid_header_value_returns_error() {
    let r = custom_headers(&headers(&[("X-Ok", "bad\nvalue")]));
    assert_eq!(r.unwrap_err(), ProxyError::HttpTransport { message: "failed to parse header value".to_string() });
}

#[test]
fn default_sign_in_settings() {
    let config = HttpConfig {
        url: "https://x".to_string(),
        headers: StrMap::new(),
        allowed_operations: vec![],
        denied_operations: vec![],
        auth: None,
    };
    let c = oauth_settings(&config);
    assert_eq!(c, OAuthConfig::default());
    assert_eq!(c.redirect_port, 9876);
    let own = OAuthConfig { client_id: Some("id".to_string()), ..OAuthConfig::default() };
    let config = HttpConfig { auth: Some(own.clone()), ..config };
    assert_eq!(oauth_settings(&config), own);
}
