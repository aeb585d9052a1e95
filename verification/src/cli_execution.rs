//! CLI operations: their descriptors, the input a call hands the command, and
//! the result that the command's exit status and output make.

use vstd::prelude::*;
use crate::cli_runner::{describe_command, tool_description};
use crate::configuration::model::CliOperationDef;
use crate::strmap::StrMap;

verus! {

/// What the gateway tells clients about an operation; the schema is JSON text.
#[derive(Debug, Clone, PartialEq, Eq)]
pub struct OperationDescriptor {
    pub name: String,
    pub description: Option<String>,
    pub schema: String,
}

/// A call of an operation, with its arguments as JSON text.
#[derive(Debug, Clone, PartialEq, Eq)]
pub struct OperationCallRequest {
    pub name: String,
    pub arguments: Option<String>,
}

/// The result of a call: content items as JSON text, and whether it failed.
#[derive(Debug, Clone, PartialEq, Eq)]
pub struct OperationCallResult {
    pub content: Vec<String>,
    pub is_error: bool,
}

/// The hexadecimal digit of `n` (below 16), in lower case.
pub open spec fn hex_digit(n: int) -> char {
    if n < 10 { (('0' as int) + n) as char } else { (('a' as int) + n - 10) as char }
}

/// How a JSON string writes `c`: quote, backslash and control characters
/// escaped (the short forms where JSON has one, else `\u00` and two hex
/// digits), every other character as it is.
pub open spec fn json_char(c: char) -> Seq<char> {
    if c == '"' {
        seq!['\\', '"']
    } else if c == '\\' {
        seq!['\\', '\\']
    } else if c == '\x08' {
        seq!['\\', 'b']
    } else if c == '\t' {
        seq!['\\', 't']
    } else if c == '\n' {
        seq!['\\', 'n']
    } else if c == '\x0c' {
        seq!['\\', 'f']
    } else if c == '\r' {
        seq!['\\', 'r']
    } else if (c as int) < 0x20 {
        seq!['\\', 'u', '0', '0', hex_digit((c as int) / 16), hex_digit((c as int) % 16)]
    } else {
        seq![c]
    }
}

/// The characters of `s`, each as a JSON string writes it.
pub open spec fn json_escaped(s: Seq<char>) -> Seq<char>
    decreases s.len(),
{
    if s.len() == 0 {
        Seq::empty()
    } else {
        json_escaped(s.drop_last()) + json_char(s.last())
    }
}

/// The JSON string literal of `s`: `s` escaped, between double quotes.
pub open spec fn json_string(s: Seq<char>) -> Seq<char> {
    seq!['"'] + json_escaped(s) + seq!['"']
}

/// Calls `serde_json::to_string` on a string slice, which writes it as a JSON
/// string literal. Claims: the result is `s` between double quotes, with
/// quote, backslash and each control character escaped as `json_char` says
/// and every other character as it is. Serialising a string never fails.
#[verifier::external_body]
fn json_quote(s: &str) -> (q: String)
    ensures
        q@ == json_string(s@),
{
    serde_json::to_string(s).unwrap_or_default()
}

/// The JSON of a text content item, `{"text":...,"type":"text"}` (the members in
/// the order in which `serde_json` writes an object's keys).
pub open spec fn text_content(text: Seq<char>) -> Seq<char> {
    "{\"text\":"@ + json_string(text) + ",\"type\":\"text\"}"@
}

/// Returns the JSON of a text content item holding `text`.
pub fn text_content_json(text: &str) -> (j: String)
    ensures
        j@ == text_content(text@),
{
    let mut j = String::from_str("{\"text\":");
    let q = json_quote(text);
    j.append(q.as_str());
    j.append(",\"type\":\"text\"}");
    j
}

/// The schema of every CLI operation: an open object.
pub open spec fn open_object_schema_text() -> Seq<char> {
    "{\"type\":\"object\"}"@
}

/// Whether `d` describes operation `name` defined by `def`.
pub open spec fn describes_operation(d: OperationDescriptor, name: Seq<char>, def: CliOperationDef) -> bool {
    &&& d.name@ == name
    &&& d.description is Some
    &&& d.description->0@ == tool_description(def.description, def.command@)
    &&& d.schema@ == open_object_schema_text()
}

/// The descriptor of operation `name`.
pub fn build_tool_descriptor(name: &str, def: &CliOperationDef) -> (d: OperationDescriptor)
    ensures
        describes_operation(d, name@, *def),
{
    OperationDescriptor {
        name: String::from_str(name),
        description: Some(describe_command(&def.description, &def.command)),
        schema: String::from_str("{\"type\":\"object\"}"),
    }
}

/// The message for a call of an operation that is not configured.
pub open spec fn unknown_operation_message(name: Seq<char>) -> Seq<char> {
    "unknown CLI operation: "@ + name
}

/// The message for a command that could not be started.
pub open spec fn run_failure_message(command: Seq<char>, error: Seq<char>) -> Seq<char> {
    "failed to run '"@ + command + "': "@ + error
}

/// The text a command reads on its standard input: the call's arguments, or
/// `{}` when it has none.
pub open spec fn operation_input(arguments: Option<String>) -> Seq<char> {
    match arguments {
        Some(a) => a@,
        None => "{}"@,
    }
}

/// The result of a command that ran: its standard output as content when it
/// succeeded, its standard error as an error otherwise.
pub open spec fn outcome(success: bool, stdout: Seq<char>, stderr: Seq<char>) -> (Seq<char>, bool) {
    if success { (text_content(stdout), false) } else { (text_content(stderr), true) }
}

/// Runs the configured CLI operations.
pub struct ProcessCliRunner {
    pub tools: StrMap<CliOperationDef>,
}

impl ProcessCliRunner {
    pub fn new(tools: StrMap<CliOperationDef>) -> (r: Self)
        ensures
            r.tools == tools,
    {
        ProcessCliRunner { tools }
    }

    /// A descriptor for each operation, in name order.
    pub fn list_operations(&self) -> (v: Vec<OperationDescriptor>)
        ensures
            v@.len() == self.tools.pairs().len(),
            forall|i: int| 0 <= i < v@.len() ==> describes_operation(#[trigger] v@[i], self.tools.pairs()[i].0, self.tools.pairs()[i].1),
    {
        let n = self.tools.len();
        let mut v: Vec<OperationDescriptor> = Vec::new();
        let mut i: usize = 0;
        while i < n
            invariant
                i <= n,
                n == self.tools.pairs().len(),
                v@.len() == i,
                forall|j: int| 0 <= j < i ==> describes_operation(#[trigger] v@[j], self.tools.pairs()[j].0, self.tools.pairs()[j].1),
            decreases n - i,
        {
            let d = build_tool_descriptor(self.tools.key_at(i).as_str(), self.tools.value_at(i));
            v.push(d);
            i = i + 1;
        }
        v
    }

    pub fn has_operation(&self, name: &str) -> (b: bool)
        ensures
            b == self.tools@.contains_key(name@),
    {
        self.tools.contains_key(name)
    }

    /// The command to run for `request` and the text to give it on standard
    /// input, or the error that the call gets.
    pub fn prepare_call(&self, request: &OperationCallRequest) -> (r: Result<(String, String), String>)
        ensures
            match r {
                Ok((command, input)) => self.tools@.contains_key(request.name@)
                    && command@ == self.tools@[request.name@].command@
                    && input@ == operation_input(request.arguments),
                Err(m) => !self.tools@.contains_key(request.name@) && m@ == unknown_operation_message(request.name@),
            },
    {
        match self.tools.get(request.name.as_str()) {
            None => {
                let mut m = String::from_str("unknown CLI operation: ");
                proof { reveal_strlit("unknown CLI operation: "); }
                m.append(request.name.as_str());
                Err(m)
            },
            Some(def) => {
                let input = match &request.arguments {
                    Some(a) => a.clone(),
                    None => {
                        proof { reveal_strlit("{}"); }
                        String::from_str("{}")
                    },
                };
                Ok((def.command.clone(), input))
            },
        }
    }
}

/// The message for a command that could not be started.
pub fn run_failure(command: &str, error: &str) -> (m: String)
    ensures
        m@ == run_failure_message(command@, error@),
{
    let mut m = String::from_str("failed to run '");
    m.append(command);
    m.append("': ");
    m.append(error);
    m
}

/// The result of a command that ran, from its exit status and output.
pub fn call_outcome(success: bool, stdout: &str, stderr: &str) -> (r: OperationCallResult)
    ensures
        r.content@.len() == 1,
        r.content@[0]@ == outcome(success, stdout@, stderr@).0,
        r.is_error == outcome(success, stdout@, stderr@).1,
{
    let mut content: Vec<String> = Vec::new();
    if success {
        content.push(text_content_json(stdout));
        OperationCallResult { content, is_error: false }
    } else {
        content.push(text_content_json(stderr));
        OperationCallResult { content, is_error: true }
    }
}

/// The result of a call once its command was started: what the command's
/// exit status and output make of it, or, when it could not be started, the
/// failure to run it.
pub fn call_result(command: &str, ran: Result<(bool, String, String), String>) -> (r: Result<OperationCallResult, String>)
    ensures
        match ran {
            Ok((success, stdout, stderr)) => r matches Ok(c) && c.content@.len() == 1
                && c.content@[0]@ == outcome(success, stdout@, stderr@).0
                && c.is_error == outcome(success, stdout@, stderr@).1,
            Err(e) => r matches Err(m) && m@ == run_failure_message(command@, e@),
        },
{
    match ran {
        Ok((success, stdout, stderr)) => Ok(call_outcome(success, stdout.as_str(), stderr.as_str())),
        Err(e) => Err(run_failure(command, e.as_str())),
    }
}

/// The runner used when no CLI operation is configured.
pub struct NullCliRunner;

/// The message for a call when no CLI operation is configured.
pub open spec fn no_operation_message(name: Seq<char>) -> Seq<char> {
    "unknown operation: "@ + name
}

impl NullCliRunner {
    pub fn list_operations(&self) -> (v: Vec<OperationDescriptor>)
        ensures
            v@.len() == 0,
    {
        Vec::new()
    }

    pub fn has_operation(&self, name: &str) -> (b: bool)
        ensures
            !b,
    {
        false
    }

    /// Every call fails, naming the operation.
    pub fn call_operation(&self, request: &OperationCallRequest) -> (r: Result<OperationCallResult, String>)
        ensures
            match r {
                Ok(_) => false,
                Err(m) => m@ == no_operation_message(request.name@),
            },
    {
        let mut m = String::from_str("unknown operation: ");
        proof { reveal_strlit("unknown operation: "); }
        m.append(request.name.as_str());
        Err(m)
    }
}

/// A command that succeeded answers with its standard output alone, whatever
/// it wrote to standard error, and the answer is no error; one that failed
/// answers with its standard error alone, whatever its standard output, as
/// an error. Either way the answer is a JSON text item holding that output.
pub proof fn law_outcome_uses_one_stream(stdout: Seq<char>, stdout2: Seq<char>, stderr: Seq<char>, stderr2: Seq<char>)
    ensures
        outcome(true, stdout, stderr) == outcome(true, stdout, stderr2),
        outcome(true, stdout, stderr) == ("{\"text\":"@ + json_string(stdout) + ",\"type\":\"text\"}"@, false),
        outcome(false, stdout, stderr) == outcome(false, stdout2, stderr),
        outcome(false, stdout, stderr) == ("{\"text\":"@ + json_string(stderr) + ",\"type\":\"text\"}"@, true),
{
}

} // verus!
