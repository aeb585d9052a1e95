use mcp_gateway::configuration::store::{config_path_in, FileConfigStore};
use mcp_gateway::config::model::{GatewayConfig, HttpConfig, McpServerEntry, StdioConfig};
use mcp_gateway::strmap::StrMap;

fn stdio(allowed: &[&str], denied: &[&str]) -> McpServerEntry {
    McpServerEntry::Stdio(StdioConfig {
        command: "cmd".to_string(),
        args: vec![],
        env: StrMap::new(),
        allowed_tools: allowed.iter().map(|s| s.to_string()).collect(),
        denied_tools: denied.iter().map(|s| s.to_string()).collect(),
    })
}

fn http(allowed: &[&str], denied: &[&str]) -> McpServerEntry {
    McpServerEntry::Http(HttpConfig {
        url: "https://x.com".to_string(),
        headers: StrMap::new(),
        allowed_tools: allowed.iter().map(|s| s.to_string()).collect(),
        denied_tools: denied.iter().map(|s| s.to_string()).collect(),
    })
}

#[test]
fn allowed_tools_accessor_returns_correct_slice() {
    let stdio = stdio(&["a"], &[]);
    assert_eq!(stdio.allowed_tools(), &["a"]);
    let http = http(&["b", "c"], &[]);
    assert_eq!(http.allowed_tools(), &["b", "c"]);
}

#[test]
fn allowed_tools_mut_modifies_stdio() {
    let mut entry = stdio(&[], &[]);
    entry.allowed_tools_mut().push("new_tool".to_string());
    assert_eq!(entry.allowed_tools(), &["new_tool"]);
}

#[test]
fn allowed_tools_mut_modifies_http() {
    let mut entry = http(&["existing"], &[]);
    entry.allowed_tools_mut().push("another".to_string());
    assert_eq!(entry.allowed_tools(), &["existing", "another"]);
}

#[test]
fn denied_tools_accessor_returns_correct_slice() {
    let stdio = stdio(&[], &["a"]);
    assert_eq!(stdio.denied_tools(), &["a"]);
    let http = http(&[], &["b", "c"]);
    assert_eq!(http.denied_tools(), &["b", "c"]);
}

#[test]
fn denied_tools_mut_modifies_stdio() {
    let mut entry = stdio(&[], &[]);
    entry.denied_tools_mut().push("dangerous".to_string());
    assert_eq!(entry.denied_tools(), &["dangerous"]);
}

#[test]
fn denied_tools_mut_modifies_http() {
    let mut entry = http(&[], &["existing"]);
    entry.denied_tools_mut().push("another".to_string());
    assert_eq!(entry.denied_tools(), &["existing", "another"]);
}

#[test]
fn editing_one_list_leaves_the_other() {
    let mut entry = stdio(&["read"], &["delete"]);
    entry.allowed_tools_mut().push("write".to_string());
    assert_eq!(entry.denied_tools(), &["delete"]);
    entry.denied_tools_mut().clear();
    assert_eq!(entry.allowed_tools(), &["read", "write"]);
}

#[test]
fn new_config_is_empty() {
    let config = GatewayConfig::new();
    assert!(config.mcp_servers.is_empty());
    assert!(config.cli_tools.is_empty());
}

#[test]
fn default_config_path_ends_with_expected_filename() {
    let path = mcp_gateway::configuration::store::default_config_path();
    assert!(path.is_some());
    let path = path.unwrap_or_default();
    assert!(path.ends_with(".mcp-gateway.json"));
}

#[test]
fn config_store_failures_name_the_file() {
    let store = FileConfigStore::new("/etc/gw.json");
    assert_eq!(store.path(), "/etc/gw.json");
    assert_eq!(store.io_error("denied").to_string(), "failed to read config from /etc/gw.json: denied");
    assert_eq!(store.parse_error("eof").to_string(), "failed to parse config from /etc/gw.json: eof");
    assert_eq!(config_path_in("/home/u"), "/home/u/.mcp-gateway.json");
}
