//! Configured CLI tools as the gateway lists them: a descriptor per tool, in
//! name order, and the lookup that precedes running one.

use vstd::prelude::*;
use crate::config::model::CliToolDef;
use crate::strmap::StrMap;

verus! {

/// What the gateway tells clients about a tool.
#[derive(Debug, Clone, PartialEq, Eq)]
pub struct ToolDescriptor {
    pub name: String,
    pub description: Option<String>,
    /// The top-level members of the tool's input JSON schema, with their
    /// (string) values.
    pub schema: StrMap<String>,
}

/// The description shown for a CLI tool: its own, or `Execute: <command>`.
pub open spec fn tool_description(description: Option<String>, command: Seq<char>) -> Seq<char> {
    match description {
        Some(d) => d@,
        None => "Execute: "@ + command,
    }
}

/// The input schema of every CLI tool: an open object, `{"type": "object"}`.
pub open spec fn open_object_schema(schema: Map<Seq<char>, String>) -> bool {
    &&& schema.dom() == set!["type"@]
    &&& schema["type"@]@ == "object"@
}

/// Whether `d` describes the tool `name` defined by `command` and `description`.
pub open spec fn describes(d: ToolDescriptor, name: Seq<char>, command: Seq<char>, description: Option<String>) -> bool {
    &&& d.name@ == name
    &&& d.description is Some
    &&& d.description->0@ == tool_description(description, command)
    &&& open_object_schema(d.schema@)
}

/// The description of a tool: its own, or one made from its command.
pub fn describe_command(description: &Option<String>, command: &String) -> (d: String)
    ensures
        d@ == tool_description(*description, command@),
{
    match description {
        Some(d) => d.clone(),
        None => {
            let mut s = String::from_str("Execute: ");
            s.append(command.as_str());
            s
        },
    }
}

/// The schema `{"type": "object"}`.
pub fn open_object() -> (schema: StrMap<String>)
    ensures
        open_object_schema(schema@),
{
    let mut schema = StrMap::new();
    let key = String::from_str("type");
    let value = String::from_str("object");
    proof { reveal_strlit("type"); reveal_strlit("object"); }
    schema.insert(key, value);
    assert(schema@.dom() =~= set!["type"@]);
    schema
}

/// The descriptor of the CLI tool `name`.
pub fn build_tool_descriptor(name: &str, def: &CliToolDef) -> (d: ToolDescriptor)
    ensures
        describes(d, name@, def.command@, def.description),
{
    ToolDescriptor {
        name: String::from_str(name),
        description: Some(describe_command(&def.description, &def.command)),
        schema: open_object(),
    }
}

/// The message for a call of a tool that is not configured.
pub open spec fn unknown_tool_message(name: Seq<char>) -> Seq<char> {
    "unknown CLI tool: "@ + name
}

/// Runs the configured CLI tools.
pub struct ProcessCliRunner {
    pub tools: StrMap<CliToolDef>,
}

impl ProcessCliRunner {
    pub fn new(tools: StrMap<CliToolDef>) -> (r: Self)
        ensures
            r.tools == tools,
    {
        ProcessCliRunner { tools }
    }

    /// A descriptor for each tool, in name order.
    pub fn list_tools(&self) -> (v: Vec<ToolDescriptor>)
        ensures
            v@.len() == self.tools.pairs().len(),
            forall|i: int| 0 <= i < v@.len() ==> describes(#[trigger] v@[i], self.tools.pairs()[i].0,
                self.tools.pairs()[i].1.command@, self.tools.pairs()[i].1.description),
    {
        list_descriptors(&self.tools)
    }

    pub fn has_tool(&self, name: &str) -> (b: bool)
        ensures
            b == self.tools@.contains_key(name@),
    {
        self.tools.contains_key(name)
    }

    /// The definition of the tool to run for a call of `name`, or the error
    /// that the call gets.
    pub fn tool_for_call(&self, name: &str) -> (r: Result<&CliToolDef, String>)
        ensures
            match r {
                Ok(def) => self.tools@.contains_key(name@) && *def == self.tools@[name@],
                Err(m) => !self.tools@.contains_key(name@) && m@ == unknown_tool_message(name@),
            },
    {
        lookup_tool(&self.tools, name)
    }
}

/// A descriptor for each tool of `tools`, in name order.
pub fn list_descriptors(tools: &StrMap<CliToolDef>) -> (v: Vec<ToolDescriptor>)
    ensures
        v@.len() == tools.pairs().len(),
        forall|i: int| 0 <= i < v@.len() ==> describes(#[trigger] v@[i], tools.pairs()[i].0,
            tools.pairs()[i].1.command@, tools.pairs()[i].1.description),
{
    let n = tools.len();
    let mut v: Vec<ToolDescriptor> = Vec::new();
    let mut i: usize = 0;
    while i < n
        invariant
            i <= n,
            n == tools.pairs().len(),
            v@.len() == i,
            forall|j: int| 0 <= j < i ==> describes(#[trigger] v@[j], tools.pairs()[j].0,
                tools.pairs()[j].1.command@, tools.pairs()[j].1.description),
        decreases n - i,
    {
        let d = build_tool_descriptor(tools.key_at(i).as_str(), tools.value_at(i));
        v.push(d);
        i = i + 1;
    }
    v
}

/// The definition of tool `name`, or the unknown-tool message.
pub fn lookup_tool<'a>(tools: &'a StrMap<CliToolDef>, name: &str) -> (r: Result<&'a CliToolDef, String>)
    ensures
        match r {
            Ok(def) => tools@.contains_key(name@) && *def == tools@[name@],
            Err(m) => !tools@.contains_key(name@) && m@ == unknown_tool_message(name@),
        },
{
    match tools.get(name) {
        Some(def) => Ok(def),
        None => {
            let mut m = String::from_str("unknown CLI tool: ");
            proof { reveal_strlit("unknown CLI tool: "); }
            m.append(name);
            Err(m)
        },
    }
}

/// The runner used when no CLI tool is configured.
pub struct NullCliRunner;

/// The message for a call of a tool when no CLI tool is configured.
pub open spec fn no_tool_message(name: Seq<char>) -> Seq<char> {
    "unknown tool: "@ + name
}

impl NullCliRunner {
    pub fn list_tools(&self) -> (v: Vec<ToolDescriptor>)
        ensures
            v@.len() == 0,
    {
        Vec::new()
    }

    pub fn has_tool(&self, name: &str) -> (b: bool)
        ensures
            !b,
    {
        false
    }

    /// Every call fails, naming the tool.
    pub fn call_tool(&self, name: &str) -> (r: Result<(), String>)
        ensures
            match r {
                Ok(_) => false,
                Err(m) => m@ == no_tool_message(name@),
            },
    {
        let mut m = String::from_str("unknown tool: ");
        proof { reveal_strlit("unknown tool: "); }
        m.append(name);
        Err(m)
    }
}

} // verus!
