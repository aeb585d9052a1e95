use std::cell::RefCell;

use mcp_gateway::configuration::model::{CliOperationDef, HttpConfig, McpServerEntry, StdioConfig};
use mcp_gateway::filter::{AllowlistFilter, CompoundFilter, DenylistFilter};
use mcp_gateway::proxy::error::ProxyError;
use mcp_gateway::registry::{ProviderConfigStore, RegistryError, RegistryService};
use mcp_gateway::strmap::StrMap;
use mcp_gateway::ui::command::{
    AddArgs, AllowlistModifyArgs, AllowlistShowArgs, DenylistModifyArgs, DenylistShowArgs, RemoveArgs, RulesArgs,
    TransportType,
};
use mcp_gateway::ui::runner::{
    build_entry, describe_entry, encode, policy_label, run_add, run_allowlist_add, run_allowlist_remove,
    run_allowlist_show, run_denylist_add, run_denylist_remove, run_denylist_show, run_list, run_remove, run_rules,
    run_tools, select_providers, ProviderTools,
};

struct FakeConfigStore {
    entries: RefCell<StrMap<McpServerEntry>>,
    fail_load: bool,
}

impl FakeConfigStore {
    fn new(entries: StrMap<McpServerEntry>) -> Self {
        Self { entries: RefCell::new(entries), fail_load: false }
    }

    fn failing() -> Self {
        Self { entries: RefCell::new(StrMap::new()), fail_load: true }
    }
}

impl ProviderConfigStore for FakeConfigStore {
    fn load_entries(&self) -> Result<StrMap<McpServerEntry>, String> {
        if self.fail_load {
            return Err("denied".to_string());
        }
        Ok(self.entries.borrow().clone())
    }

    fn save_entries(&self, entries: StrMap<McpServerEntry>) -> Result<(), String> {
        *self.entries.borrow_mut() = entries;
        Ok(())
    }
}

fn strings(items: &[&str]) -> Vec<String> {
    items.iter().map(|s| s.to_string()).collect()
}

fn stdio_entry(command: &str, allowed: &[&str], denied: &[&str]) -> McpServerEntry {
    McpServerEntry::Stdio(StdioConfig {
        command: command.to_string(),
        args: vec![],
        env: StrMap::new(),
        allowed_operations: strings(allowed),
        denied_operations: strings(denied),
    })
}

fn http_entry(url: &str, allowed: &[&str], denied: &[&str]) -> McpServerEntry {
    McpServerEntry::Http(HttpConfig {
        url: url.to_string(),
        headers: StrMap::new(),
        allowed_operations: strings(allowed),
        denied_operations: strings(denied),
        auth: None,
    })
}

fn servers(items: Vec<(&str, McpServerEntry)>) -> StrMap<McpServerEntry> {
    let mut m = StrMap::new();
    for (k, v) in items {
        m.insert(k.to_string(), v);
    }
    m
}

fn service_with(items: Vec<(&str, McpServerEntry)>) -> RegistryService<FakeConfigStore> {
    RegistryService::new(FakeConfigStore::new(servers(items)))
}

fn empty_service() -> RegistryService<FakeConfigStore> {
    service_with(vec![])
}

fn failing_service() -> RegistryService<FakeConfigStore> {
    RegistryService::new(FakeConfigStore::failing())
}

fn test_service() -> RegistryService<FakeConfigStore> {
    service_with(vec![("test", stdio_entry("echo", &[], &[]))])
}

fn stored(service: &RegistryService<FakeConfigStore>, name: &str) -> McpServerEntry {
    service.store().load_entries().unwrap().get(name).unwrap().clone()
}

fn rules(service: &RegistryService<FakeConfigStore>, cli: &StrMap<CliOperationDef>, name: Option<&str>) -> Result<String, RegistryError> {
    let mut buf = Vec::new();
    run_rules(service, cli, RulesArgs { name: name.map(|s| s.to_string()) }, &mut buf)?;
    Ok(String::from_utf8(buf).unwrap())
}

fn no_cli() -> StrMap<CliOperationDef> {
    StrMap::new()
}

#[test]
fn runner_run_add_stdio_creates_entry() {
    let service = empty_service();
    let args = AddArgs {
        name: "test".to_string(),
        transport: TransportType::Stdio,
        command: Some("node".to_string()),
        args: vec!["server.js".to_string()],
        env_vars: vec![("KEY".to_string(), "val".to_string())],
        url: None,
        headers: vec![],
    };
    run_add(&service, args).unwrap();
    let mut env = StrMap::new();
    env.insert("KEY".to_string(), "val".to_string());
    assert_eq!(
        stored(&service, "test"),
        McpServerEntry::Stdio(StdioConfig {
            command: "node".to_string(),
            args: vec!["server.js".to_string()],
            env,
            allowed_operations: vec![],
            denied_operations: vec![],
        })
    );
}

#[test]
fn runner_run_add_http_creates_entry() {
    let service = empty_service();
    let args = AddArgs {
        name: "remote".to_string(),
        transport: TransportType::Http,
        command: None,
        args: vec![],
        env_vars: vec![],
        url: Some("https://example.com".to_string()),
        headers: vec![("Auth".to_string(), "tok".to_string())],
    };
    run_add(&service, args).unwrap();
    let mut headers = StrMap::new();
    headers.insert("Auth".to_string(), "tok".to_string());
    assert_eq!(
        stored(&service, "remote"),
        McpServerEntry::Http(HttpConfig {
            url: "https://example.com".to_string(),
            headers,
            allowed_operations: vec![],
            denied_operations: vec![],
            auth: None,
        })
    );
}

#[test]
fn runner_run_add_duplicate_fails() {
    let service = service_with(vec![("existing", stdio_entry("echo", &[], &[]))]);
    let args = AddArgs {
        name: "existing".to_string(),
        transport: TransportType::Stdio,
        command: Some("echo".to_string()),
        args: vec![],
        env_vars: vec![],
        url: None,
        headers: vec![],
    };
    let result = run_add(&service, args);
    assert!(matches!(result, Err(RegistryError::AlreadyExists { .. })));
}

#[test]
fn runner_build_stdio_entry() {
    let entry = build_entry(
        TransportType::Stdio,
        Some("cmd".to_string()),
        vec!["arg".to_string()],
        vec![("K".to_string(), "V".to_string())],
        None,
        vec![],
    );
    let mut env = StrMap::new();
    env.insert("K".to_string(), "V".to_string());
    assert_eq!(
        entry,
        McpServerEntry::Stdio(StdioConfig {
            command: "cmd".to_string(),
            args: vec!["arg".to_string()],
            env,
            allowed_operations: vec![],
            denied_operations: vec![],
        })
    );
}

#[test]
fn runner_build_http_entry() {
    let entry = build_entry(
        TransportType::Http,
        None,
        vec![],
        vec![],
        Some("https://x.com".to_string()),
        vec![("H".to_string(), "V".to_string())],
    );
    let mut headers = StrMap::new();
    headers.insert("H".to_string(), "V".to_string());
    assert_eq!(
        entry,
        McpServerEntry::Http(HttpConfig {
            url: "https://x.com".to_string(),
            headers,
            allowed_operations: vec![],
            denied_operations: vec![],
            auth: None,
        })
    );
}

#[test]
fn build_entry_later_pairs_win_and_missing_command_is_empty() {
    let entry = build_entry(
        TransportType::Stdio,
        None,
        vec![],
        vec![("K".to_string(), "1".to_string()), ("K".to_string(), "2".to_string())],
        None,
        vec![],
    );
    match entry {
        McpServerEntry::Stdio(c) => {
            assert_eq!(c.command, "");
            assert_eq!(c.env.get("K").map(|s| s.as_str()), Some("2"));
            assert_eq!(c.env.len(), 1);
        }
        _ => panic!("expected stdio"),
    }
}

#[test]
fn runner_describe_stdio_entry_returns_type_and_command() {
    let entry = stdio_entry("node", &[], &[]);
    assert_eq!(describe_entry(&entry), ("stdio", "node"));
}

#[test]
fn runner_describe_http_entry_returns_type_and_url() {
    let entry = http_entry("https://example.com", &[], &[]);
    assert_eq!(describe_entry(&entry), ("http", "https://example.com"));
}

#[test]
fn runner_run_list_empty_config_writes_nothing() {
    let service = empty_service();
    let mut buf = Vec::new();
    run_list(&service, &mut buf).unwrap();
    assert!(buf.is_empty());
}

#[test]
fn runner_run_list_populated_config_writes_table() {
    let service = service_with(vec![
        ("my-server", stdio_entry("node", &[], &[])),
        ("remote", http_entry("https://example.com", &[], &[])),
    ]);
    let mut buf = Vec::new();
    run_list(&service, &mut buf).unwrap();
    let output = String::from_utf8(buf).unwrap();
    assert!(output.contains("NAME"));
    assert!(output.contains("TYPE"));
    assert!(output.contains("TARGET"));
    assert!(output.contains("my-server"));
    assert!(output.contains("stdio"));
    assert!(output.contains("node"));
    assert!(output.contains("remote"));
    assert!(output.contains("http"));
    assert!(output.contains("https://example.com"));
}

#[test]
fn run_list_table_layout_exact() {
    let service = service_with(vec![("a", stdio_entry("node", &[], &[]))]);
    let mut buf = Vec::new();
    run_list(&service, &mut buf).unwrap();
    assert_eq!(
        String::from_utf8(buf).unwrap(),
        format!("{:<20} {:<10} TARGET\n{:<20} {:<10} {}\n", "NAME", "TYPE", "a", "stdio", "node")
    );
}

#[test]
fn runner_run_list_with_store_error_propagates() {
    let service = failing_service();
    let mut buf = Vec::new();
    let result = run_list(&service, &mut buf);
    assert!(matches!(result, Err(RegistryError::Storage(_))));
}

#[test]
fn runner_run_remove_existing_server_succeeds() {
    let service = service_with(vec![("target", stdio_entry("echo", &[], &[]))]);
    run_remove(&service, RemoveArgs { name: "target".to_string() }).unwrap();
    let entries = service.store().load_entries().unwrap();
    assert!(!entries.contains_key("target"));
}

#[test]
fn runner_run_remove_nonexistent_returns_not_found() {
    let service = empty_service();
    let result = run_remove(&service, RemoveArgs { name: "nope".to_string() });
    assert!(matches!(result, Err(RegistryError::NotFound { .. })));
}

#[test]
fn runner_run_allowlist_add_appends_tools() {
    let service = test_service();
    let args = AllowlistModifyArgs { name: "test".to_string(), tools: strings(&["read", "write"]) };
    run_allowlist_add(&service, args).unwrap();
    assert_eq!(stored(&service, "test").allowed_operations(), &["read", "write"]);
}

#[test]
fn runner_run_allowlist_add_server_not_found() {
    let service = empty_service();
    let args = AllowlistModifyArgs { name: "nope".to_string(), tools: strings(&["read"]) };
    let result = run_allowlist_add(&service, args);
    assert!(matches!(result, Err(RegistryError::NotFound { .. })));
}

#[test]
fn runner_run_allowlist_remove_removes_tools() {
    let service = service_with(vec![("test", stdio_entry("echo", &["read", "write"], &[]))]);
    let args = AllowlistModifyArgs { name: "test".to_string(), tools: strings(&["read"]) };
    run_allowlist_remove(&service, args).unwrap();
    assert_eq!(stored(&service, "test").allowed_operations(), &["write"]);
}

#[test]
fn runner_run_allowlist_remove_server_not_found() {
    let service = empty_service();
    let args = AllowlistModifyArgs { name: "nope".to_string(), tools: strings(&["read"]) };
    let result = run_allowlist_remove(&service, args);
    assert!(matches!(result, Err(RegistryError::NotFound { .. })));
}

#[test]
fn runner_run_allowlist_show_prints_tools() {
    let service = service_with(vec![("test", stdio_entry("echo", &["read", "write"], &[]))]);
    let mut buf = Vec::new();
    run_allowlist_show(&service, AllowlistShowArgs { name: "test".to_string() }, &mut buf).unwrap();
    let output = String::from_utf8(buf).unwrap();
    assert!(output.contains("read"));
    assert!(output.contains("write"));
}

#[test]
fn runner_run_allowlist_show_empty_prints_nothing() {
    let service = test_service();
    let mut buf = Vec::new();
    run_allowlist_show(&service, AllowlistShowArgs { name: "test".to_string() }, &mut buf).unwrap();
    assert!(buf.is_empty());
}

#[test]
fn runner_run_allowlist_show_server_not_found() {
    let service = empty_service();
    let mut buf = Vec::new();
    let result = run_allowlist_show(&service, AllowlistShowArgs { name: "nope".to_string() }, &mut buf);
    assert!(matches!(result, Err(RegistryError::NotFound { .. })));
}

#[test]
fn runner_run_allowlist_add_store_error_propagates() {
    let service = failing_service();
    let args = AllowlistModifyArgs { name: "test".to_string(), tools: strings(&["read"]) };
    let result = run_allowlist_add(&service, args);
    assert!(matches!(result, Err(RegistryError::Storage(_))));
}

#[test]
fn runner_run_allowlist_remove_store_error_propagates() {
    let service = failing_service();
    let args = AllowlistModifyArgs { name: "test".to_string(), tools: strings(&["read"]) };
    let result = run_allowlist_remove(&service, args);
    assert!(matches!(result, Err(RegistryError::Storage(_))));
}

#[test]
fn runner_run_allowlist_show_store_error_propagates() {
    let service = failing_service();
    let mut buf = Vec::new();
    let result = run_allowlist_show(&service, AllowlistShowArgs { name: "test".to_string() }, &mut buf);
    assert!(matches!(result, Err(RegistryError::Storage(_))));
}

#[test]
fn runner_run_denylist_add_appends_tools() {
    let service = test_service();
    let args = DenylistModifyArgs { name: "test".to_string(), tools: strings(&["delete", "exec"]) };
    run_denylist_add(&service, args).unwrap();
    assert_eq!(stored(&service, "test").denied_operations(), &["delete", "exec"]);
}

#[test]
fn runner_run_denylist_add_server_not_found() {
    let service = empty_service();
    let args = DenylistModifyArgs { name: "nope".to_string(), tools: strings(&["delete"]) };
    let result = run_denylist_add(&service, args);
    assert!(matches!(result, Err(RegistryError::NotFound { .. })));
}

#[test]
fn runner_run_denylist_remove_removes_tools() {
    let service = service_with(vec![("test", stdio_entry("echo", &[], &["delete", "exec"]))]);
    let args = DenylistModifyArgs { name: "test".to_string(), tools: strings(&["delete"]) };
    run_denylist_remove(&service, args).unwrap();
    assert_eq!(stored(&service, "test").denied_operations(), &["exec"]);
}

#[test]
fn runner_run_denylist_remove_server_not_found() {
    let service = empty_service();
    let args = DenylistModifyArgs { name: "nope".to_string(), tools: strings(&["delete"]) };
    let result = run_denylist_remove(&service, args);
    assert!(matches!(result, Err(RegistryError::NotFound { .. })));
}

#[test]
fn runner_run_denylist_show_prints_tools() {
    let service = service_with(vec![("test", stdio_entry("echo", &[], &["delete", "exec"]))]);
    let mut buf = Vec::new();
    run_denylist_show(&service, DenylistShowArgs { name: "test".to_string() }, &mut buf).unwrap();
    let output = String::from_utf8(buf).unwrap();
    assert!(output.contains("delete"));
    assert!(output.contains("exec"));
}

#[test]
fn runner_run_denylist_show_empty_prints_nothing() {
    let service = test_service();
    let mut buf = Vec::new();
    run_denylist_show(&service, DenylistShowArgs { name: "test".to_string() }, &mut buf).unwrap();
    assert!(buf.is_empty());
}

#[test]
fn runner_run_denylist_show_server_not_found() {
    let service = empty_service();
    let mut buf = Vec::new();
    let result = run_denylist_show(&service, DenylistShowArgs { name: "nope".to_string() }, &mut buf);
    assert!(matches!(result, Err(RegistryError::NotFound { .. })));
}

#[test]
fn runner_run_denylist_add_store_error_propagates() {
    let service = failing_service();
    let args = DenylistModifyArgs { name: "test".to_string(), tools: strings(&["delete"]) };
    let result = run_denylist_add(&service, args);
    assert!(matches!(result, Err(RegistryError::Storage(_))));
}

#[test]
fn runner_run_denylist_remove_store_error_propagates() {
    let service = failing_service();
    let args = DenylistModifyArgs { name: "test".to_string(), tools: strings(&["delete"]) };
    let result = run_denylist_remove(&service, args);
    assert!(matches!(result, Err(RegistryError::Storage(_))));
}

#[test]
fn runner_run_denylist_show_store_error_propagates() {
    let service = failing_service();
    let mut buf = Vec::new();
    let result = run_denylist_show(&service, DenylistShowArgs { name: "test".to_string() }, &mut buf);
    assert!(matches!(result, Err(RegistryError::Storage(_))));
}

#[test]
fn policy_label_open_when_no_rules() {
    assert_eq!(policy_label(&[], &[]), "open");
}

#[test]
fn policy_label_allowlist_when_only_allowed() {
    let allowed = vec!["read".to_string()];
    assert_eq!(policy_label(&allowed, &[]), "allowlist");
}

#[test]
fn policy_label_denylist_when_only_denied() {
    let denied = vec!["delete".to_string()];
    assert_eq!(policy_label(&[], &denied), "denylist");
}

#[test]
fn policy_label_both_when_allowed_and_denied() {
    let allowed = vec!["read".to_string()];
    let denied = vec!["delete".to_string()];
    assert_eq!(policy_label(&allowed, &denied), "allowlist + denylist");
}

#[test]
fn run_rules_empty_config_writes_nothing() {
    let service = empty_service();
    assert_eq!(rules(&service, &no_cli(), None).unwrap(), "");
}

#[test]
fn run_rules_shows_open_policy_when_no_rules() {
    let service = test_service();
    let output = rules(&service, &no_cli(), None).unwrap();
    assert!(output.contains("test (stdio"));
    assert!(output.contains("policy: open"));
    assert!(output.contains("no rules"));
}

#[test]
fn run_rules_shows_allowlist_with_prefixed_names() {
    let service = service_with(vec![("my-server", stdio_entry("node", &["read", "search"], &[]))]);
    let output = rules(&service, &no_cli(), None).unwrap();
    assert!(output.contains("policy: allowlist"));
    assert!(output.contains("ALLOW  read"));
    assert!(output.contains("→ my-server__read"));
    assert!(output.contains("ALLOW  search"));
    assert!(output.contains("→ my-server__search"));
    assert!(!output.contains("no rules"));
}

#[test]
fn run_rules_shows_denylist() {
    let service = service_with(vec![("srv", http_entry("https://example.com", &[], &["delete"]))]);
    let output = rules(&service, &no_cli(), None).unwrap();
    assert!(output.contains("policy: denylist"));
    assert!(output.contains("DENY   delete"));
    assert!(!output.contains("no rules"));
}

#[test]
fn run_rules_shows_combined_policy() {
    let service = service_with(vec![("combo", stdio_entry("cmd", &["read"], &["exec"]))]);
    let output = rules(&service, &no_cli(), None).unwrap();
    assert!(output.contains("policy: allowlist + denylist"));
    assert!(output.contains("ALLOW  read"));
    assert!(output.contains("DENY   exec"));
    assert!(!output.contains("no rules"));
}

#[test]
fn run_rules_filters_by_server_name() {
    let service = service_with(vec![
        ("alpha", stdio_entry("a", &["tool_a"], &[])),
        ("beta", stdio_entry("b", &["tool_b"], &[])),
    ]);
    let output = rules(&service, &no_cli(), Some("alpha")).unwrap();
    assert!(output.contains("alpha"));
    assert!(output.contains("tool_a"));
    assert!(!output.contains("beta"));
    assert!(!output.contains("tool_b"));
}

#[test]
fn run_rules_server_not_found() {
    let service = empty_service();
    let result = rules(&service, &no_cli(), Some("nope"));
    assert!(matches!(result, Err(RegistryError::NotFound { .. })));
}

#[test]
fn run_rules_store_error_propagates() {
    let service = failing_service();
    let result = rules(&service, &no_cli(), None);
    assert!(matches!(result, Err(RegistryError::Storage(_))));
}

fn cli(items: &[(&str, &str, Option<&str>)]) -> StrMap<CliOperationDef> {
    let mut m = StrMap::new();
    for (name, command, description) in items {
        m.insert(
            name.to_string(),
            CliOperationDef { command: command.to_string(), description: description.map(|d| d.to_string()) },
        );
    }
    m
}

#[test]
fn run_rules_shows_cli_tools() {
    let service = empty_service();
    let ops = cli(&[("gh-pr-list", "/scripts/gh-pr-list.sh", Some("List pull requests"))]);
    let output = rules(&service, &ops, None).unwrap();
    assert!(output.contains("gh-pr-list"));
    assert!(output.contains("cli"));
    assert!(output.contains("/scripts/gh-pr-list.sh"));
    assert!(output.contains("List pull requests"));
    assert!(output.contains("open"));
}

#[test]
fn run_rules_cli_tool_uses_command_as_fallback_description() {
    let service = empty_service();
    let ops = cli(&[("my-tool", "/bin/my-tool", None)]);
    let output = rules(&service, &ops, None).unwrap();
    assert!(output.contains("/bin/my-tool"));
}

#[test]
fn run_rules_filters_cli_tool_by_name() {
    let service = empty_service();
    let ops = cli(&[("gh-pr-list", "a", None), ("gh-run-list", "b", None)]);
    let output = rules(&service, &ops, Some("gh-pr-list")).unwrap();
    assert!(output.contains("gh-pr-list"));
    assert!(!output.contains("gh-run-list"));
}

#[test]
fn run_rules_cli_tool_not_found_returns_error() {
    let service = empty_service();
    let result = rules(&service, &no_cli(), Some("nonexistent"));
    assert!(matches!(result, Err(RegistryError::NotFound { .. })));
}

#[test]
fn run_rules_layout_exact() {
    let service = service_with(vec![("s", stdio_entry("node", &["read"], &["exec"]))]);
    let output = rules(&service, &no_cli(), None).unwrap();
    assert_eq!(
        output,
        format!(
            "s (stdio → node)\n  policy: allowlist + denylist\n  ALLOW  {:<40} → s__read\n  DENY   exec\n\n",
            "read"
        )
    );
}

#[test]
fn encode_joins_with_double_underscore() {
    assert_eq!(encode("srv", "tool"), "srv__tool");
}

fn filter(allowed: &[&str], denied: &[&str]) -> CompoundFilter<AllowlistFilter, DenylistFilter> {
    CompoundFilter::new(AllowlistFilter::new(strings(allowed)), DenylistFilter::new(strings(denied)))
}

#[test]
fn select_providers_all_or_named() {
    let mut m: StrMap<u8> = StrMap::new();
    m.insert("b".to_string(), 1);
    m.insert("a".to_string(), 2);
    assert_eq!(select_providers(&m, None).unwrap(), strings(&["a", "b"]));
    assert_eq!(select_providers(&m, Some("b")).unwrap(), strings(&["b"]));
    assert_eq!(
        select_providers(&m, Some("zz")).unwrap_err(),
        ProxyError::UpstreamInit { message: "server 'zz' not found".to_string() }
    );
}

#[test]
fn run_tools_marks_allowed_and_blocked() {
    let providers = vec![
        ProviderTools { name: "s".to_string(), filter: filter(&[], &["rm"]), listing: Ok(strings(&["ls", "rm"])) },
        ProviderTools { name: "t".to_string(), filter: filter(&[], &[]), listing: Err("down".to_string()) },
    ];
    let mut buf = Vec::new();
    run_tools(&providers, &mut buf);
    let output = String::from_utf8(buf).unwrap();
    assert!(output.contains("ALLOW  ls"));
    assert!(output.contains("BLOCK  rm"));
    assert!(output.contains("down"));
}

#[test]
fn run_tools_empty_writes_nothing() {
    let mut buf = Vec::new();
    run_tools(&vec![], &mut buf);
    assert!(buf.is_empty());
}
