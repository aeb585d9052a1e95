//! Which tools of an upstream server the gateway forwards: an allowlist, a
//! denylist, and their combination, in which a denial always wins.

use vstd::prelude::*;
use crate::strmap::str_eq;

verus! {

/// A rule that decides, by name, whether a tool may be used.
pub trait ToolFilter: Send + Sync {
    /// Whether the rule admits the tool named `tool_name`.
    spec fn allows(&self, tool_name: Seq<char>) -> bool;

    fn is_tool_allowed(&self, tool_name: &str) -> (b: bool)
        ensures
            b == self.allows(tool_name@),
    ;
}

/// Whether `name` is one of `names`.
pub open spec fn listed(names: Seq<String>, name: Seq<char>) -> bool {
    exists|i: int| 0 <= i < names.len() && names[i]@ == name
}

/// Returns whether `name` is one of `names`.
pub fn is_listed(names: &[String], name: &str) -> (b: bool)
    ensures
        b == listed(names@, name@),
{
    let n = names.len();
    let mut i: usize = 0;
    while i < n
        invariant
            i <= n,
            n == names@.len(),
            forall|j: int| 0 <= j < i ==> names@[j]@ != name@,
        decreases n - i,
    {
        if str_eq(names[i].as_str(), name) {
            return true;
        }
        i = i + 1;
    }
    false
}

/// Admits only the listed tools; an empty list admits every tool.
#[derive(Debug, Clone)]
pub struct AllowlistFilter {
    pub allowed: Vec<String>,
}

impl AllowlistFilter {
    pub fn new(allowed: Vec<String>) -> (f: Self)
        ensures
            f.allowed@ == allowed@,
    {
        AllowlistFilter { allowed }
    }
}

impl ToolFilter for AllowlistFilter {
    open spec fn allows(&self, tool_name: Seq<char>) -> bool {
        self.allowed@.len() == 0 || listed(self.allowed@, tool_name)
    }

    fn is_tool_allowed(&self, tool_name: &str) -> (b: bool) {
        self.allowed.len() == 0 || is_listed(self.allowed.as_slice(), tool_name)
    }
}

/// Admits every tool that is not listed.
#[derive(Debug, Clone)]
pub struct DenylistFilter {
    pub denied: Vec<String>,
}

impl DenylistFilter {
    pub fn new(denied: Vec<String>) -> (f: Self)
        ensures
            f.denied@ == denied@,
    {
        DenylistFilter { denied }
    }
}

impl ToolFilter for DenylistFilter {
    open spec fn allows(&self, tool_name: Seq<char>) -> bool {
        !listed(self.denied@, tool_name)
    }

    fn is_tool_allowed(&self, tool_name: &str) -> (b: bool) {
        !is_listed(self.denied.as_slice(), tool_name)
    }
}

/// Admits a tool when both of its rules admit it.
pub struct CompoundFilter<A: ToolFilter, D: ToolFilter> {
    allow: A,
    deny: D,
}

impl<A: ToolFilter, D: ToolFilter> CompoundFilter<A, D> {
    pub closed spec fn allow_rule(self) -> A {
        self.allow
    }

    pub closed spec fn deny_rule(self) -> D {
        self.deny
    }

    pub fn new(allow: A, deny: D) -> (f: Self)
        ensures
            f.allow_rule() == allow,
            f.deny_rule() == deny,
    {
        CompoundFilter { allow, deny }
    }
}

impl<A: ToolFilter, D: ToolFilter> ToolFilter for CompoundFilter<A, D> {
    open spec fn allows(&self, tool_name: Seq<char>) -> bool {
        self.allow_rule().allows(tool_name) && self.deny_rule().allows(tool_name)
    }

    fn is_tool_allowed(&self, tool_name: &str) -> (b: bool) {
        self.allow.is_tool_allowed(tool_name) && self.deny.is_tool_allowed(tool_name)
    }
}

/// The filter that a server entry's allowlist and denylist make.
pub type DefaultFilter = CompoundFilter<AllowlistFilter, DenylistFilter>;

/// A denied tool is blocked, whatever the allowlist says.
pub proof fn law_denial_wins(f: DefaultFilter, tool_name: Seq<char>)
    requires
        listed(f.deny_rule().denied@, tool_name),
    ensures
        !f.allows(tool_name),
{
}

/// With both lists empty, every tool passes.
pub proof fn law_empty_lists_admit_all(f: DefaultFilter, tool_name: Seq<char>)
    requires
        f.allow_rule().allowed@.len() == 0,
        f.deny_rule().denied@.len() == 0,
    ensures
        f.allows(tool_name),
{
}

/// With a non-empty allowlist, a tool passes exactly when it is listed there
/// and not in the denylist.
pub proof fn law_allowlist_and_denylist(f: DefaultFilter, tool_name: Seq<char>)
    requires
        f.allow_rule().allowed@.len() > 0,
    ensures
        f.allows(tool_name) <==> (listed(f.allow_rule().allowed@, tool_name) && !listed(
            f.deny_rule().denied@,
            tool_name,
        )),
{
}

} // verus!
