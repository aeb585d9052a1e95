use mcp_gateway::cli_execution::{
    build_tool_descriptor, call_outcome, call_result, run_failure, text_content_json, NullCliRunner, OperationCallRequest,
    ProcessCliRunner,
};
use mcp_gateway::configuration::model::CliOperationDef;
use mcp_gateway::strmap::StrMap;

fn op(command: &str, description: Option<&str>) -> CliOperationDef {
    CliOperationDef { command: command.to_string(), description: description.map(|d| d.to_string()) }
}

fn runner() -> ProcessCliRunner {
    let mut tools = StrMap::new();
    tools.insert("zeta".to_string(), op("/bin/z", None));
    tools.insert("alpha".to_string(), op("/bin/a", Some("Alpha")));
    ProcessCliRunner::new(tools)
}

#[test]
fn text_content_quotes_and_escapes() {
    assert_eq!(text_content_json("hi"), r#"{"text":"hi","type":"text"}"#);
    assert_eq!(text_content_json("a\"b\n"), r#"{"text":"a\"b\n","type":"text"}"#);
}

#[test]
fn operations_listed_in_name_order() {
    let listed = runner().list_operations();
    assert_eq!(listed.len(), 2);
    assert_eq!(listed[0].name, "alpha");
    assert_eq!(listed[0].description.as_deref(), Some("Alpha"));
    assert_eq!(listed[1].name, "zeta");
    assert_eq!(listed[1].description.as_deref(), Some("Execute: /bin/z"));
    assert_eq!(listed[1].schema, r#"{"type":"object"}"#);
}

#[test]
fn descriptor_of_operation() {
    let d = build_tool_descriptor("gh", &op("gh", None));
    assert_eq!(d.name, "gh");
    assert_eq!(d.schema, r#"{"type":"object"}"#);
}

#[test]
fn prepare_call_uses_arguments_or_empty_object() {
    let r = runner();
    assert!(r.has_operation("alpha"));
    assert!(!r.has_operation("beta"));
    let call = OperationCallRequest { name: "alpha".to_string(), arguments: Some(r#"{"k":1}"#.to_string()) };
    assert_eq!(r.prepare_call(&call), Ok(("/bin/a".to_string(), r#"{"k":1}"#.to_string())));
    let call = OperationCallRequest { name: "zeta".to_string(), arguments: None };
    assert_eq!(r.prepare_call(&call), Ok(("/bin/z".to_string(), "{}".to_string())));
    let call = OperationCallRequest { name: "nope".to_string(), arguments: None };
    assert_eq!(r.prepare_call(&call), Err("unknown CLI operation: nope".to_string()));
}

#[test]
fn outcome_of_commands() {
    let ok = call_outcome(true, "out", "err");
    assert_eq!(ok.content, vec![r#"{"text":"out","type":"text"}"#.to_string()]);
    assert!(!ok.is_error);
    let bad = call_outcome(false, "out", "err");
    assert_eq!(bad.content, vec![r#"{"text":"err","type":"text"}"#.to_string()]);
    assert!(bad.is_error);
    assert_eq!(run_failure("/bin/x", "not found"), "failed to run '/bin/x': not found");
}

#[test]
fn null_runner_refuses_every_operation() {
    let n = NullCliRunner;
    assert!(n.list_operations().is_empty());
    assert!(!n.has_operation("x"));
    let call = OperationCallRequest { name: "test".to_string(), arguments: None };
    assert_eq!(n.call_operation(&call).unwrap_err(), "unknown operation: test");
}

#[test]
fn text_content_escapes_quotes_backslashes_and_control_characters() {
    assert_eq!(
        text_content_json("a\"b\\c\n\t\r\u{8}\u{c}\u{1}\u{1f}/\u{e9}"),
        "{\"text\":\"a\\\"b\\\\c\\n\\t\\r\\b\\f\\u0001\\u001f/\u{e9}\",\"type\":\"text\"}"
    );
}

#[test]
fn call_result_of_a_started_and_an_unstartable_command() {
    let ok = call_result("echo", Ok((true, "hi".to_string(), String::new()))).unwrap();
    assert_eq!(ok.content, vec!["{\"text\":\"hi\",\"type\":\"text\"}".to_string()]);
    assert!(!ok.is_error);
    let failed = call_result("echo", Ok((false, String::new(), "bad".to_string()))).unwrap();
    assert_eq!(failed.content, vec!["{\"text\":\"bad\",\"type\":\"text\"}".to_string()]);
    assert!(failed.is_error);
    assert_eq!(call_result("nope", Err("not found".to_string())).unwrap_err(), "failed to run 'nope': not found");
}
