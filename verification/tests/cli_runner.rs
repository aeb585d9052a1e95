use mcp_gateway::cli_runner::{build_tool_descriptor, NullCliRunner, ProcessCliRunner};
use mcp_gateway::cli_tools::CliToolExecutor;
use mcp_gateway::config::model::CliToolDef;
use mcp_gateway::strmap::StrMap;

fn tool_def(command: &str, description: Option<&str>) -> CliToolDef {
    CliToolDef {
        command: command.to_string(),
        args: vec![],
        description: description.map(|s| s.to_string()),
    }
}

#[test]
fn new_empty_runner() {
    let runner = ProcessCliRunner::new(StrMap::new());
    assert!(runner.list_tools().is_empty());
}

#[test]
fn cli_has_tool_returns_true_for_existing() {
    let mut tools = StrMap::new();
    tools.insert("my-tool".to_string(), tool_def("echo", None));
    let runner = ProcessCliRunner::new(tools);
    assert!(runner.has_tool("my-tool"));
}

#[test]
fn cli_has_tool_returns_false_for_missing() {
    let runner = ProcessCliRunner::new(StrMap::new());
    assert!(!runner.has_tool("nope"));
}

#[test]
fn cli_list_tools_returns_descriptors() {
    let mut tools = StrMap::new();
    tools.insert("alpha".to_string(), tool_def("echo", Some("Echo tool")));
    tools.insert("beta".to_string(), tool_def("cat", None));
    let runner = ProcessCliRunner::new(tools);
    let listed = runner.list_tools();
    assert_eq!(listed.len(), 2);
    assert_eq!(listed[0].name, "alpha");
    assert_eq!(listed[1].name, "beta");
}

#[test]
fn cli_list_tools_auto_description() {
    let mut tools = StrMap::new();
    tools.insert("t".to_string(), tool_def("git", None));
    let runner = ProcessCliRunner::new(tools);
    let listed = runner.list_tools();
    let desc = listed[0].description.as_deref().unwrap();
    assert!(desc.contains("git"));
}

#[test]
fn cli_list_tools_custom_description() {
    let mut tools = StrMap::new();
    tools.insert("t".to_string(), tool_def("git", Some("Show git status")));
    let runner = ProcessCliRunner::new(tools);
    let listed = runner.list_tools();
    assert_eq!(listed[0].description.as_deref(), Some("Show git status"));
}

#[test]
fn cli_build_tool_descriptor_schema_is_open_object() {
    let def = tool_def("echo", None);
    let tool = build_tool_descriptor("test", &def);
    assert_eq!(tool.schema.get("type").unwrap(), "object");
    assert!(tool.schema.get("properties").is_none());
    assert!(tool.schema.get("required").is_none());
}

#[test]
fn cli_build_tool_descriptor_with_custom_description() {
    let def = tool_def("gh", Some("List PRs"));
    let tool = build_tool_descriptor("gh-pr", &def);
    assert_eq!(tool.name, "gh-pr");
    assert_eq!(tool.description.as_deref(), Some("List PRs"));
}

#[test]
fn cli_build_tool_descriptor_auto_description() {
    let def = tool_def("docker", None);
    let tool = build_tool_descriptor("docker-ps", &def);
    assert_eq!(tool.name, "docker-ps");
    let desc = tool.description.as_deref().unwrap();
    assert!(desc.contains("docker"));
}

#[test]
fn list_tools_returns_empty() {
    assert!(NullCliRunner.list_tools().is_empty());
}

#[test]
fn has_tool_returns_false() {
    assert!(!NullCliRunner.has_tool("anything"));
}

#[test]
fn null_runner_call_names_the_tool() {
    let result = NullCliRunner.call_tool("test");
    assert!(result.is_err());
    assert!(result.unwrap_err().contains("test"));
}

#[test]
fn runner_tool_for_call_unknown_names_it() {
    let runner = ProcessCliRunner::new(StrMap::new());
    let err = runner.tool_for_call("nope").unwrap_err();
    assert_eq!(err, "unknown CLI tool: nope");
}

#[test]
fn auto_description_is_run_command() {
    let def = tool_def("git", None);
    let tool = build_tool_descriptor("t", &def);
    assert_eq!(tool.description.as_deref(), Some("Execute: git"));
}

#[test]
fn new_empty_executor() {
    let executor = CliToolExecutor::new(StrMap::new());
    assert!(executor.list_tools().is_empty());
}

#[test]
fn executor_has_tool_returns_true_for_existing() {
    let mut tools = StrMap::new();
    tools.insert("my-tool".to_string(), tool_def("echo", None));
    let executor = CliToolExecutor::new(tools);
    assert!(executor.has_tool("my-tool"));
}

#[test]
fn executor_has_tool_returns_false_for_missing() {
    let executor = CliToolExecutor::new(StrMap::new());
    assert!(!executor.has_tool("nope"));
}

#[test]
fn executor_list_tools_returns_descriptors() {
    let mut tools = StrMap::new();
    tools.insert("alpha".to_string(), tool_def("echo", Some("Echo tool")));
    tools.insert("beta".to_string(), tool_def("cat", None));
    let executor = CliToolExecutor::new(tools);
    let listed = executor.list_tools();
    assert_eq!(listed.len(), 2);
    assert_eq!(listed[0].name.as_str(), "alpha");
    assert_eq!(listed[1].name.as_str(), "beta");
}

#[test]
fn executor_list_tools_auto_description() {
    let mut tools = StrMap::new();
    tools.insert("t".to_string(), tool_def("git", None));
    let executor = CliToolExecutor::new(tools);
    let listed = executor.list_tools();
    let desc = listed[0].description.as_deref().unwrap();
    assert!(desc.contains("git"));
}

#[test]
fn executor_list_tools_custom_description() {
    let mut tools = StrMap::new();
    tools.insert("t".to_string(), tool_def("git", Some("Show git status")));
    let executor = CliToolExecutor::new(tools);
    let listed = executor.list_tools();
    assert_eq!(listed[0].description.as_deref(), Some("Show git status"));
}

#[test]
fn executor_build_tool_descriptor_schema_is_open_object() {
    let def = tool_def("echo", None);
    let tool = build_tool_descriptor("test", &def);
    assert_eq!(tool.schema.get("type").unwrap(), "object");
    assert!(tool.schema.get("properties").is_none());
    assert!(tool.schema.get("required").is_none());
}

#[test]
fn executor_build_tool_descriptor_with_custom_description() {
    let def = tool_def("gh", Some("List PRs"));
    let tool = build_tool_descriptor("gh-pr", &def);
    assert_eq!(tool.name.as_str(), "gh-pr");
    assert_eq!(tool.description.as_deref(), Some("List PRs"));
}

#[test]
fn executor_build_tool_descriptor_auto_description() {
    let def = tool_def("docker", None);
    let tool = build_tool_descriptor("docker-ps", &def);
    assert_eq!(tool.name.as_str(), "docker-ps");
    let desc = tool.description.as_deref().unwrap();
    assert!(desc.contains("docker"));
}

#[test]
fn executor_unknown_tool_message_names_it() {
    let executor = CliToolExecutor::new(StrMap::new());
    let err = executor.tool_for_call("nope").unwrap_err();
    assert!(err.contains("nope"));
}
