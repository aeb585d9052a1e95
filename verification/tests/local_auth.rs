use mcp_gateway::proxy::local_auth::chosen_host;
use mcp_gateway::proxy::local_auth::{authorize_redirect, base_url, local_client_id, local_token, oauth_endpoints};

#[test]
fn local_hosts_map_to_docker_host() {
    assert_eq!(base_url(None, Some("localhost:8080")), "http://host.docker.internal:8080");
    assert_eq!(base_url(None, Some("127.0.0.1:9000")), "http://host.docker.internal:9000");
    assert_eq!(base_url(None, None), "http://host.docker.internal:localhost");
    assert_eq!(base_url(None, Some("gw.example.com:8080")), "http://gw.example.com:8080");
}

#[test]
fn forwarded_host_wins() {
    assert_eq!(base_url(Some("proxy.example"), Some("localhost:1")), "http://proxy.example");
}

#[test]
fn endpoints_under_base() {
    let e = oauth_endpoints(None, Some("example.org"));
    assert_eq!(e.issuer, "http://example.org");
    assert_eq!(e.authorization_endpoint, "http://example.org/authorize");
    assert_eq!(e.token_endpoint, "http://example.org/token");
    assert_eq!(e.registration_endpoint, "http://example.org/register");
    assert_eq!(e.response_types_supported, vec!["code".to_string()]);
    assert_eq!(e.grant_types_supported, vec!["authorization_code".to_string(), "refresh_token".to_string()]);
    assert_eq!(e.token_endpoint_auth_methods_supported, vec!["none".to_string()]);
    assert_eq!(e.code_challenge_methods_supported, vec!["S256".to_string()]);
}

#[test]
fn registration_and_grant() {
    assert_eq!(local_client_id(Some("editor")), "editor-local");
    assert_eq!(local_client_id(None), "mcp-client-local");
    assert_eq!(
        authorize_redirect(Some("http://cb"), Some("s1")),
        "http://cb?code=local-grant&state=s1"
    );
    assert_eq!(authorize_redirect(None, None), "?code=local-grant&state=");
    let t = local_token();
    assert_eq!(t.access_token, "mcp-gateway-local");
    assert_eq!(t.token_type, "Bearer");
    assert_eq!(t.expires_in, 86400);
}

#[test]
fn an_unreadable_forwarded_host_means_localhost_not_the_host_header() {
    let h = chosen_host(Some(None), Some(Some("gw.example.com")));
    assert_eq!(h, None);
    assert_eq!(base_url(h, None), "http://host.docker.internal:localhost");
    assert_eq!(chosen_host(None, Some(Some("gw.example.com"))), Some("gw.example.com"));
    assert_eq!(chosen_host(Some(Some("proxy:9000")), Some(Some("gw"))), Some("proxy:9000"));
    assert_eq!(chosen_host(None, None), None);
}
