use mcp_gateway::filter::{AllowlistFilter, CompoundFilter, DenylistFilter, ToolFilter};

#[test]
fn both_empty_allows_all() {
    let filter = CompoundFilter::new(AllowlistFilter::new(vec![]), DenylistFilter::new(vec![]));
    assert!(filter.is_tool_allowed("anything"));
}

#[test]
fn allowlist_only_filters() {
    let filter = CompoundFilter::new(
        AllowlistFilter::new(vec!["read".to_string()]),
        DenylistFilter::new(vec![]),
    );
    assert!(filter.is_tool_allowed("read"));
    assert!(!filter.is_tool_allowed("write"));
}

#[test]
fn denylist_only_filters() {
    let filter = CompoundFilter::new(
        AllowlistFilter::new(vec![]),
        DenylistFilter::new(vec!["write".to_string()]),
    );
    assert!(filter.is_tool_allowed("read"));
    assert!(!filter.is_tool_allowed("write"));
}

#[test]
fn denylist_takes_precedence_over_allowlist() {
    let filter = CompoundFilter::new(
        AllowlistFilter::new(vec!["read".to_string(), "write".to_string()]),
        DenylistFilter::new(vec!["write".to_string()]),
    );
    assert!(filter.is_tool_allowed("read"));
    assert!(!filter.is_tool_allowed("write"));
}

#[test]
fn denied_tool_blocked_even_if_allowed() {
    let filter = CompoundFilter::new(
        AllowlistFilter::new(vec!["dangerous".to_string()]),
        DenylistFilter::new(vec!["dangerous".to_string()]),
    );
    assert!(!filter.is_tool_allowed("dangerous"));
}

#[test]
fn allowlist_filter_alone() {
    assert!(AllowlistFilter::new(vec![]).is_tool_allowed("x"));
    assert!(AllowlistFilter::new(vec!["x".to_string()]).is_tool_allowed("x"));
    assert!(!AllowlistFilter::new(vec!["x".to_string()]).is_tool_allowed("y"));
}

#[test]
fn denylist_filter_alone() {
    assert!(DenylistFilter::new(vec![]).is_tool_allowed("x"));
    assert!(!DenylistFilter::new(vec!["x".to_string()]).is_tool_allowed("x"));
}
