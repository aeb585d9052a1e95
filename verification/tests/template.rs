use mcp_gateway::strmap::StrMap;
use mcp_gateway::template::{extract_placeholders, is_valid_placeholder_name, render_args, ParamValue};

fn args(strs: &[&str]) -> Vec<String> {
    strs.iter().map(|s| s.to_string()).collect()
}

fn params(pairs: &[(&str, &str)]) -> StrMap<ParamValue> {
    let mut m = StrMap::new();
    for (k, v) in pairs {
        m.insert(k.to_string(), ParamValue::Str(v.to_string()));
    }
    m
}

fn set(items: &[&str]) -> Vec<String> {
    let mut v: Vec<String> = items.iter().map(|s| s.to_string()).collect();
    v.sort();
    v.dedup();
    v
}

#[test]
fn extract_no_placeholders() {
    assert!(extract_placeholders(&args(&["ls", "-la"])).is_empty());
}

#[test]
fn extract_single_placeholder() {
    let result = extract_placeholders(&args(&["--repo", "{{repo}}"]));
    assert_eq!(result.to_vec(), set(&["repo"]));
}

#[test]
fn extract_multiple_placeholders() {
    let result = extract_placeholders(&args(&["{{owner}}/{{repo}}"]));
    assert_eq!(result.to_vec(), set(&["owner", "repo"]));
}

#[test]
fn extract_deduplicates() {
    let result = extract_placeholders(&args(&["{{name}}", "{{name}}"]));
    assert_eq!(result.len(), 1);
    assert!(result.contains("name"));
}

#[test]
fn extract_unclosed_brace_ignored() {
    assert!(extract_placeholders(&args(&["{{unclosed"])).is_empty());
}

#[test]
fn extract_empty_args() {
    assert!(extract_placeholders(&[]).is_empty());
}

#[test]
fn extract_dotted_name_not_placeholder() {
    assert!(extract_placeholders(&args(&["{{.Names}}"])).is_empty());
}

#[test]
fn extract_underscore_placeholder() {
    let result = extract_placeholders(&args(&["{{_private}}"]));
    assert_eq!(result.to_vec(), set(&["_private"]));
}

#[test]
fn extract_single_char_placeholder() {
    let result = extract_placeholders(&args(&["{{x}}"]));
    assert_eq!(result.to_vec(), set(&["x"]));
}

#[test]
fn extract_sorted_order() {
    let result = extract_placeholders(&args(&["{{zeta}}", "{{alpha}} {{mid}}"]));
    assert_eq!(result.to_vec(), vec!["alpha", "mid", "zeta"]);
}

#[test]
fn render_no_placeholders() {
    let result = render_args(&args(&["ls", "-la"]), &params(&[])).unwrap();
    assert_eq!(result, vec!["ls", "-la"]);
}

#[test]
fn render_single_substitution() {
    let result = render_args(&args(&["--repo", "{{repo}}"]), &params(&[("repo", "myrepo")])).unwrap();
    assert_eq!(result, vec!["--repo", "myrepo"]);
}

#[test]
fn render_embedded_substitution() {
    let result = render_args(
        &args(&["{{owner}}/{{repo}}"]),
        &params(&[("owner", "me"), ("repo", "proj")]),
    )
    .unwrap();
    assert_eq!(result, vec!["me/proj"]);
}

#[test]
fn render_missing_param_returns_error() {
    let result = render_args(&args(&["{{missing}}"]), &params(&[]));
    assert!(result.is_err());
    assert!(result.unwrap_err().contains("missing"));
}

#[test]
fn render_missing_param_message_names_it() {
    let result = render_args(&args(&["ok", "{{first}} {{second}}"]), &params(&[]));
    assert_eq!(result.unwrap_err(), "missing required argument: first");
}

#[test]
fn render_non_string_value_uses_to_string() {
    let mut map = StrMap::new();
    map.insert("count".to_string(), ParamValue::Json("42".to_string()));
    let result = render_args(&args(&["--count", "{{count}}"]), &map).unwrap();
    assert_eq!(result, vec!["--count", "42"]);
}

#[test]
fn render_multiple_in_one_arg() {
    let result = render_args(&args(&["{{a}}-{{b}}"]), &params(&[("a", "x"), ("b", "y")])).unwrap();
    assert_eq!(result, vec!["x-y"]);
}

#[test]
fn render_unclosed_brace_preserved() {
    let result = render_args(&args(&["{{unclosed"]), &params(&[])).unwrap();
    assert_eq!(result, vec!["{{unclosed"]);
}

#[test]
fn render_non_identifier_preserved() {
    let result = render_args(&args(&["{{.Names}}"]), &params(&[])).unwrap();
    assert_eq!(result, vec!["{{.Names}}"]);
}

#[test]
fn valid_placeholder_names() {
    assert!(is_valid_placeholder_name("repo"));
    assert!(is_valid_placeholder_name("_private"));
    assert!(is_valid_placeholder_name("name123"));
    assert!(is_valid_placeholder_name("A"));
}

#[test]
fn invalid_placeholder_names() {
    assert!(!is_valid_placeholder_name(""));
    assert!(!is_valid_placeholder_name(".Names"));
    assert!(!is_valid_placeholder_name("123abc"));
    assert!(!is_valid_placeholder_name("a-b"));
}

#[test]
fn arguments_without_placeholders_render_unchanged_with_any_parameters() {
    let a = args(&["plain", "{{1bad}}", "{{unclosed", "a}}b"]);
    assert_eq!(render_args(&a, &params(&[])).unwrap(), a);
    assert_eq!(render_args(&a, &params(&[("x", "1")])).unwrap(), a);
}

#[test]
fn placeholders_of_joined_lists_are_the_union() {
    let a = args(&["{{owner}}/{{repo}}"]);
    let b = args(&["--limit={{limit}}", "{{repo}}"]);
    let mut ab = a.clone();
    ab.extend(b.clone());
    let mut union = extract_placeholders(&a).to_vec();
    for n in extract_placeholders(&b).to_vec() {
        if !union.contains(&n) {
            union.push(n);
        }
    }
    union.sort();
    assert_eq!(extract_placeholders(&ab).to_vec(), union);
    assert_eq!(union, set(&["limit", "owner", "repo"]));
}

#[test]
fn rendering_names_the_first_missing_placeholder_in_scanning_order() {
    let a = args(&["--x={{zeta}}-{{alpha}}", "{{beta}}"]);
    assert_eq!(render_args(&a, &params(&[])).unwrap_err(), "missing required argument: zeta");
    assert_eq!(render_args(&a, &params(&[("zeta", "1")])).unwrap_err(), "missing required argument: alpha");
    assert_eq!(render_args(&a, &params(&[("zeta", "1"), ("alpha", "2")])).unwrap_err(), "missing required argument: beta");
}
