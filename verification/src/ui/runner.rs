//! What the registry commands do and print: the server table, the policy
//! rules of each server and CLI operation, the tools a server exposes and
//! whether the policy lets them through, and the edits of allowlists and
//! denylists.

use vstd::prelude::*;
use super::command::{
    AddArgs, AllowlistModifyArgs, AllowlistShowArgs, DenylistModifyArgs, DenylistShowArgs,
    RemoveArgs, RulesArgs, TransportType,
};
use crate::configuration::model::{CliOperationDef, HttpConfig, McpServerEntry, StdioConfig};
use crate::filter::{DefaultFilter, ToolFilter};
use crate::proxy::error::ProxyError;
use crate::registry::{
    not_found, add_outcome, edit_outcome, gives, list_outcome, load_refused, remove_outcome, ListEdit, ListKind,
    ProviderConfigStore, RegistryError, RegistryService,
};
use crate::strmap::{map_from_pairs, StrMap};
use crate::text::{pad_right, pad_str, write_text};
use vstd::utf8::encode_utf8;

verus! {

/// The name under which the gateway exposes tool `tool` of server `server`.
pub open spec fn encoded_name(server: Seq<char>, tool: Seq<char>) -> Seq<char> {
    server + "__"@ + tool
}

/// Returns the name under which the gateway exposes `tool` of `server`.
pub fn encode(server: &str, tool: &str) -> (r: String)
    ensures
        r@ == encoded_name(server@, tool@),
{
    let mut r = String::from_str(server);
    r.append("__");
    r.append(tool);
    r
}

/// The transport of a server entry, as the tables show it.
pub open spec fn entry_type(e: McpServerEntry) -> Seq<char> {
    match e {
        McpServerEntry::Stdio(_) => "stdio"@,
        McpServerEntry::Http(_) => "http"@,
    }
}

/// What a server entry points at: its command or its URL.
pub open spec fn entry_target(e: McpServerEntry) -> Seq<char> {
    match e {
        McpServerEntry::Stdio(c) => c.command@,
        McpServerEntry::Http(c) => c.url@,
    }
}

/// The transport of a server and what it points at.
pub fn describe_entry(entry: &McpServerEntry) -> (r: (&str, &str))
    ensures
        r.0@ == entry_type(*entry),
        r.1@ == entry_target(*entry),
{
    match entry {
        McpServerEntry::Stdio(c) => ("stdio", c.command.as_str()),
        McpServerEntry::Http(c) => ("http", c.url.as_str()),
    }
}

/// The name of the policy that an allowlist and a denylist make.
pub open spec fn policy_name(no_allowed: bool, no_denied: bool) -> Seq<char> {
    if no_allowed && no_denied {
        "open"@
    } else if !no_allowed && no_denied {
        "allowlist"@
    } else if no_allowed && !no_denied {
        "denylist"@
    } else {
        "allowlist + denylist"@
    }
}

/// The name of the policy that `allowed` and `denied` make.
pub fn policy_label(allowed: &[String], denied: &[String]) -> (r: &'static str)
    ensures
        r@ == policy_name(allowed@.len() == 0, denied@.len() == 0),
{
    if allowed.len() == 0 && denied.len() == 0 {
        "open"
    } else if allowed.len() != 0 && denied.len() == 0 {
        "allowlist"
    } else if allowed.len() == 0 && denied.len() != 0 {
        "denylist"
    } else {
        "allowlist + denylist"
    }
}

/// The line for an allowed tool: its name, padded, and the name clients see.
pub open spec fn allow_line(server: Seq<char>, tool: Seq<char>) -> Seq<char> {
    "  ALLOW  "@ + pad_right(tool, 40) + " → "@ + encoded_name(server, tool) + "\n"@
}

/// The lines for the allowed tools of `server`.
pub open spec fn allow_lines(server: Seq<char>, tools: Seq<String>) -> Seq<char>
    decreases tools.len(),
{
    if tools.len() == 0 {
        Seq::empty()
    } else {
        allow_lines(server, tools.drop_last()) + allow_line(server, tools.last()@)
    }
}

/// The lines for the denied tools.
pub open spec fn deny_lines(tools: Seq<String>) -> Seq<char>
    decreases tools.len(),
{
    if tools.len() == 0 {
        Seq::empty()
    } else {
        deny_lines(tools.drop_last()) + "  DENY   "@ + tools.last()@ + "\n"@
    }
}

/// The rules block of a server.
pub open spec fn server_rules(name: Seq<char>, e: McpServerEntry) -> Seq<char> {
    let a = e.allowed();
    let d = e.denied();
    name + " ("@ + entry_type(e) + " → "@ + entry_target(e) + ")\n"@
        + "  policy: "@ + policy_name(a.len() == 0, d.len() == 0) + "\n"@
        + allow_lines(name, a)
        + deny_lines(d)
        + (if a.len() == 0 && d.len() == 0 { "  (no rules — all upstream tools forwarded)\n"@ } else { Seq::empty() })
        + "\n"@
}

/// The rules block of a CLI operation, which is always open.
pub open spec fn cli_rules(name: Seq<char>, def: CliOperationDef) -> Seq<char> {
    let desc = match def.description {
        Some(d) => d@,
        None => def.command@,
    };
    name + " (cli → "@ + def.command@ + ")\n"@ + "  policy: open\n"@
        + "  ALLOW  "@ + pad_right(desc, 40) + " → "@ + name + "\n"@ + "\n"@
}

/// Whether the name filter selects `name`.
pub open spec fn selected(filter: Option<Seq<char>>, name: Seq<char>) -> bool {
    filter is None || filter->0 == name
}

/// The blocks of the selected servers, in name order.
pub open spec fn servers_rules(ps: Seq<(Seq<char>, McpServerEntry)>, filter: Option<Seq<char>>) -> Seq<char>
    decreases ps.len(),
{
    if ps.len() == 0 {
        Seq::empty()
    } else {
        servers_rules(ps.drop_last(), filter) + if selected(filter, ps.last().0) {
            server_rules(ps.last().0, ps.last().1)
        } else {
            Seq::empty()
        }
    }
}

/// The blocks of the selected CLI operations, in name order.
pub open spec fn clis_rules(ps: Seq<(Seq<char>, CliOperationDef)>, filter: Option<Seq<char>>) -> Seq<char>
    decreases ps.len(),
{
    if ps.len() == 0 {
        Seq::empty()
    } else {
        clis_rules(ps.drop_last(), filter) + if selected(filter, ps.last().0) {
            cli_rules(ps.last().0, ps.last().1)
        } else {
            Seq::empty()
        }
    }
}

/// The optional name of a filter argument.
pub open spec fn name_filter(name: Option<String>) -> Option<Seq<char>> {
    match name {
        Some(n) => Some(n@),
        None => None,
    }
}

/// The rules report: a block for each selected server, then for each selected
/// CLI operation; a name that selects nothing is not found.
pub fn rules_report(servers: &StrMap<McpServerEntry>, cli_operations: &StrMap<CliOperationDef>, name: &Option<String>) -> (r: Result<String, RegistryError>)
    ensures
        match r {
            Ok(t) => t@ == servers_rules(servers.pairs(), name_filter(*name)) + clis_rules(cli_operations.pairs(), name_filter(*name))
                && (name matches Some(n) ==> servers@.contains_key(n@) || cli_operations@.contains_key(n@)),
            Err(e) => name matches Some(n) && !servers@.contains_key(n@) && !cli_operations@.contains_key(n@) && not_found(e, n@),
        },
{
    let ghost filter = name_filter(*name);
    let mut text = String::new();
    let mut printed = false;
    let n = servers.len();
    let mut i: usize = 0;
    proof { use_type_invariant(servers); use_type_invariant(cli_operations); }
    while i < n
        invariant
            i <= n,
            n == servers.pairs().len(),
            filter == name_filter(*name),
            servers.well_ordered(),
            text@ == servers_rules(servers.pairs().take(i as int), filter),
            printed <==> exists|j: int| 0 <= j < i && selected(filter, #[trigger] servers.pairs()[j].0),
        decreases n - i,
    {
        let key = servers.key_at(i);
        let entry = servers.value_at(i);
        assert(servers.pairs().take(i + 1).drop_last() =~= servers.pairs().take(i as int));
        let sel = match name {
            Some(f) => crate::strmap::str_eq(f.as_str(), key.as_str()),
            None => true,
        };
        if sel {
            let block = server_block(key.as_str(), entry);
            text.append(block.as_str());
            printed = true;
        }
        i = i + 1;
    }
    assert(servers.pairs().take(n as int) =~= servers.pairs());
    let m = cli_operations.len();
    let mut j: usize = 0;
    let ghost servers_part = text@;
    while j < m
        invariant
            j <= m,
            m == cli_operations.pairs().len(),
            filter == name_filter(*name),
            cli_operations.well_ordered(),
            text@ == servers_part + clis_rules(cli_operations.pairs().take(j as int), filter),
            printed <==> (exists|k: int| 0 <= k < n && selected(filter, #[trigger] servers.pairs()[k].0))
                || (exists|k: int| 0 <= k < j && selected(filter, #[trigger] cli_operations.pairs()[k].0)),
        decreases m - j,
    {
        let key = cli_operations.key_at(j);
        let def = cli_operations.value_at(j);
        assert(cli_operations.pairs().take(j + 1).drop_last() =~= cli_operations.pairs().take(j as int));
        let sel = match name {
            Some(f) => crate::strmap::str_eq(f.as_str(), key.as_str()),
            None => true,
        };
        let ghost before = text@;
        if sel {
            let block = cli_block(key.as_str(), def);
            text.append(block.as_str());
            printed = true;
        }
        assert(text@ =~= servers_part + clis_rules(cli_operations.pairs().take(j + 1), filter));
        j = j + 1;
    }
    assert(cli_operations.pairs().take(m as int) =~= cli_operations.pairs());
    match name {
        Some(f) => {
            if !printed {
                proof {
                    assert forall|k: int| 0 <= k < n implies servers.pairs()[k].0 != f@ by {
                        assert(!selected(filter, servers.pairs()[k].0));
                    }
                    assert forall|k: int| 0 <= k < m implies cli_operations.pairs()[k].0 != f@ by {
                        assert(!selected(filter, cli_operations.pairs()[k].0));
                    }
                    crate::strmap::lemma_pairs_map_absent(servers.pairs(), f@);
                    crate::strmap::lemma_pairs_map_absent(cli_operations.pairs(), f@);
                }
                return Err(RegistryError::NotFound { name: f.clone() });
            }
            proof {
                if exists|k: int| 0 <= k < n && selected(filter, #[trigger] servers.pairs()[k].0) {
                    let k = choose|k: int| 0 <= k < n && selected(filter, #[trigger] servers.pairs()[k].0);
                    servers.lemma_view_at(k);
                } else {
                    let k = choose|k: int| 0 <= k < m && selected(filter, #[trigger] cli_operations.pairs()[k].0);
                    cli_operations.lemma_view_at(k);
                }
            }
        },
        None => {},
    }
    Ok(text)
}

/// The rules block of one server.
fn server_block(name: &str, entry: &McpServerEntry) -> (t: String)
    ensures
        t@ == server_rules(name@, *entry),
{
    let (server_type, target) = describe_entry(entry);
    let allowed = entry.allowed_operations();
    let denied = entry.denied_operations();
    let policy = policy_label(allowed, denied);
    let mut t = String::from_str(name);
    t.append(" (");
    t.append(server_type);
    t.append(" → ");
    t.append(target);
    t.append(")\n");
    t.append("  policy: ");
    t.append(policy);
    t.append("\n");
    let ghost head = t@;
    let na = allowed.len();
    let mut i: usize = 0;
    while i < na
        invariant
            i <= na,
            na == allowed@.len(),
            t@ == head + allow_lines(name@, allowed@.take(i as int)),
        decreases na - i,
    {
        assert(allowed@.take(i + 1).drop_last() =~= allowed@.take(i as int));
        let line = allow_line_text(name, allowed[i].as_str());
        t.append(line.as_str());
        assert(t@ =~= head + allow_lines(name@, allowed@.take(i + 1)));
        i = i + 1;
    }
    assert(allowed@.take(na as int) =~= allowed@);
    let ghost head2 = t@;
    let nd = denied.len();
    let mut j: usize = 0;
    while j < nd
        invariant
            j <= nd,
            nd == denied@.len(),
            t@ == head2 + deny_lines(denied@.take(j as int)),
        decreases nd - j,
    {
        assert(denied@.take(j + 1).drop_last() =~= denied@.take(j as int));
        t.append("  DENY   ");
        t.append(denied[j].as_str());
        t.append("\n");
        assert(t@ =~= head2 + deny_lines(denied@.take(j + 1)));
        j = j + 1;
    }
    assert(denied@.take(nd as int) =~= denied@);
    if na == 0 && nd == 0 {
        t.append("  (no rules — all upstream tools forwarded)\n");
    }
    t.append("\n");
    t
}

/// The line for an allowed tool.
fn allow_line_text(server: &str, tool: &str) -> (t: String)
    ensures
        t@ == allow_line(server@, tool@),
{
    let mut t = String::from_str("  ALLOW  ");
    t.append(pad_str(tool, 40).as_str());
    t.append(" → ");
    t.append(encode(server, tool).as_str());
    t.append("\n");
    t
}

/// The rules block of one CLI operation.
fn cli_block(name: &str, def: &CliOperationDef) -> (t: String)
    ensures
        t@ == cli_rules(name@, *def),
{
    let desc = match &def.description {
        Some(d) => d.as_str(),
        None => def.command.as_str(),
    };
    let mut t = String::from_str(name);
    t.append(" (cli → ");
    t.append(def.command.as_str());
    t.append(")\n");
    t.append("  policy: open\n");
    t.append("  ALLOW  ");
    t.append(pad_str(desc, 40).as_str());
    t.append(" → ");
    t.append(name);
    t.append("\n");
    t.append("\n");
    t
}

/// What printing the rules of `servers` and `cli_operations` gives: not found,
/// with nothing printed, for a name that is neither; else the report.
pub open spec fn rules_outcome(
    servers: StrMap<McpServerEntry>,
    cli_operations: StrMap<CliOperationDef>,
    name: Option<String>,
    r: Result<(), RegistryError>,
    before: Seq<u8>,
    after: Seq<u8>,
) -> bool {
    let report = servers_rules(servers.pairs(), name_filter(name)) + clis_rules(cli_operations.pairs(), name_filter(name));
    match name {
        Some(n) if !servers@.contains_key(n@) && !cli_operations@.contains_key(n@) =>
            r matches Err(e) && not_found(e, n@) && after == before,
        _ => r is Ok && after == before + encode_utf8(report),
    }
}

/// Prints the rules of the registered servers and of `cli_operations`, or of
/// the one named in `args`.
pub fn run_rules<S: ProviderConfigStore>(
    service: &RegistryService<S>,
    cli_operations: &StrMap<CliOperationDef>,
    args: RulesArgs,
    out: &mut Vec<u8>,
) -> (r: Result<(), RegistryError>)
    ensures
        (load_refused(service.spec_store(), r) && final(out)@ == old(out)@)
        || exists|servers: StrMap<McpServerEntry>| #[trigger] gives(service.spec_store(), servers@)
            && rules_outcome(servers, *cli_operations, args.name, r, old(out)@, final(out)@),
{
    let servers = service.list_providers()?;
    let text = rules_report(&servers, cli_operations, &args.name)?;
    write_text(out, text.as_str());
    Ok(())
}

/// The header of the server table.
pub open spec fn list_header() -> Seq<char> {
    pad_right("NAME"@, 20) + " "@ + pad_right("TYPE"@, 10) + " TARGET\n"@
}

/// A row of the server table.
pub open spec fn list_row(name: Seq<char>, e: McpServerEntry) -> Seq<char> {
    pad_right(name, 20) + " "@ + pad_right(entry_type(e), 10) + " "@ + entry_target(e) + "\n"@
}

/// The rows of the server table, in name order.
pub open spec fn list_rows(ps: Seq<(Seq<char>, McpServerEntry)>) -> Seq<char>
    decreases ps.len(),
{
    if ps.len() == 0 {
        Seq::empty()
    } else {
        list_rows(ps.drop_last()) + list_row(ps.last().0, ps.last().1)
    }
}

/// The server table: nothing when no server is registered.
pub open spec fn list_text(ps: Seq<(Seq<char>, McpServerEntry)>) -> Seq<char> {
    if ps.len() == 0 { Seq::empty() } else { list_header() + list_rows(ps) }
}

/// The server table of `servers`.
pub fn list_report(servers: &StrMap<McpServerEntry>) -> (t: String)
    ensures
        t@ == list_text(servers.pairs()),
{
    let n = servers.len();
    if n == 0 {
        return String::new();
    }
    let mut t = pad_str("NAME", 20);
    t.append(" ");
    t.append(pad_str("TYPE", 10).as_str());
    t.append(" TARGET\n");
    let ghost head = t@;
    let mut i: usize = 0;
    while i < n
        invariant
            i <= n,
            n == servers.pairs().len(),
            t@ == head + list_rows(servers.pairs().take(i as int)),
        decreases n - i,
    {
        assert(servers.pairs().take(i + 1).drop_last() =~= servers.pairs().take(i as int));
        let (server_type, target) = describe_entry(servers.value_at(i));
        let mut row = pad_str(servers.key_at(i).as_str(), 20);
        row.append(" ");
        row.append(pad_str(server_type, 10).as_str());
        row.append(" ");
        row.append(target);
        row.append("\n");
        t.append(row.as_str());
        assert(t@ =~= head + list_rows(servers.pairs().take(i + 1)));
        i = i + 1;
    }
    assert(servers.pairs().take(n as int) =~= servers.pairs());
    t
}

/// Prints the table of registered servers.
pub fn run_list<S: ProviderConfigStore>(service: &RegistryService<S>, out: &mut Vec<u8>) -> (r: Result<(), RegistryError>)
    ensures
        (load_refused(service.spec_store(), r) && final(out)@ == old(out)@)
        || exists|servers: StrMap<McpServerEntry>| #[trigger] gives(service.spec_store(), servers@)
            && r is Ok && final(out)@ == old(out)@ + encode_utf8(list_text(servers.pairs())),
{
    let servers = service.list_providers()?;
    let text = list_report(&servers);
    write_text(out, text.as_str());
    Ok(())
}

/// Unregisters the server named in `args`.
pub fn run_remove<S: ProviderConfigStore>(service: &RegistryService<S>, args: RemoveArgs) -> (r: Result<(), RegistryError>)
    ensures
        load_refused(service.spec_store(), r) || exists|m: Map<Seq<char>, McpServerEntry>|
            #[trigger] gives(service.spec_store(), m) && remove_outcome(service.spec_store(), m, args.name@, r),
{
    service.remove_provider(args.name.as_str())
}

/// Adds tools to a server's allowlist.
pub fn run_allowlist_add<S: ProviderConfigStore>(service: &RegistryService<S>, args: AllowlistModifyArgs) -> (r: Result<(), RegistryError>)
    ensures
        load_refused(service.spec_store(), r) || exists|m: Map<Seq<char>, McpServerEntry>|
            #[trigger] gives(service.spec_store(), m)
            && edit_outcome(service.spec_store(), m, args.name@, args.tools@, ListKind::Allowed, ListEdit::Add, r),
{
    service.add_allowed_operations(args.name.as_str(), args.tools.as_slice())
}

/// Removes tools from a server's allowlist.
pub fn run_allowlist_remove<S: ProviderConfigStore>(service: &RegistryService<S>, args: AllowlistModifyArgs) -> (r: Result<(), RegistryError>)
    ensures
        load_refused(service.spec_store(), r) || exists|m: Map<Seq<char>, McpServerEntry>|
            #[trigger] gives(service.spec_store(), m)
            && edit_outcome(service.spec_store(), m, args.name@, args.tools@, ListKind::Allowed, ListEdit::Remove, r),
{
    service.remove_allowed_operations(args.name.as_str(), args.tools.as_slice())
}

/// Adds tools to a server's denylist.
pub fn run_denylist_add<S: ProviderConfigStore>(service: &RegistryService<S>, args: DenylistModifyArgs) -> (r: Result<(), RegistryError>)
    ensures
        load_refused(service.spec_store(), r) || exists|m: Map<Seq<char>, McpServerEntry>|
            #[trigger] gives(service.spec_store(), m)
            && edit_outcome(service.spec_store(), m, args.name@, args.tools@, ListKind::Denied, ListEdit::Add, r),
{
    service.add_denied_operations(args.name.as_str(), args.tools.as_slice())
}

/// Removes tools from a server's denylist.
pub fn run_denylist_remove<S: ProviderConfigStore>(service: &RegistryService<S>, args: DenylistModifyArgs) -> (r: Result<(), RegistryError>)
    ensures
        load_refused(service.spec_store(), r) || exists|m: Map<Seq<char>, McpServerEntry>|
            #[trigger] gives(service.spec_store(), m)
            && edit_outcome(service.spec_store(), m, args.name@, args.tools@, ListKind::Denied, ListEdit::Remove, r),
{
    service.remove_denied_operations(args.name.as_str(), args.tools.as_slice())
}

/// One line per tool.
pub open spec fn lines_of(tools: Seq<String>) -> Seq<char>
    decreases tools.len(),
{
    if tools.len() == 0 {
        Seq::empty()
    } else {
        lines_of(tools.drop_last()) + tools.last()@ + "\n"@
    }
}

/// The tools, one per line.
pub fn lines_text(tools: &Vec<String>) -> (t: String)
    ensures
        t@ == lines_of(tools@),
{
    let mut t = String::new();
    let n = tools.len();
    let mut i: usize = 0;
    while i < n
        invariant
            i <= n,
            n == tools@.len(),
            t@ == lines_of(tools@.take(i as int)),
        decreases n - i,
    {
        assert(tools@.take(i + 1).drop_last() =~= tools@.take(i as int));
        t.append(tools[i].as_str());
        t.append("\n");
        assert(t@ =~= lines_of(tools@.take(i + 1)));
        i = i + 1;
    }
    assert(tools@.take(n as int) =~= tools@);
    t
}

/// Prints a server's allowlist, one tool per line.
pub fn run_allowlist_show<S: ProviderConfigStore>(service: &RegistryService<S>, args: AllowlistShowArgs, out: &mut Vec<u8>) -> (r: Result<(), RegistryError>)
    ensures
        (load_refused(service.spec_store(), r) && final(out)@ == old(out)@)
        || exists|m: Map<Seq<char>, McpServerEntry>| #[trigger] gives(service.spec_store(), m)
            && if m.contains_key(args.name@) {
                r is Ok && final(out)@ == old(out)@ + encode_utf8(lines_of(m[args.name@].allowed()))
            } else {
                r matches Err(e) && not_found(e, args.name@) && final(out)@ == old(out)@
            },
{
    let tools = service.get_allowed_operations(args.name.as_str())?;
    let text = lines_text(&tools);
    write_text(out, text.as_str());
    Ok(())
}

/// Prints a server's denylist, one tool per line.
pub fn run_denylist_show<S: ProviderConfigStore>(service: &RegistryService<S>, args: DenylistShowArgs, out: &mut Vec<u8>) -> (r: Result<(), RegistryError>)
    ensures
        (load_refused(service.spec_store(), r) && final(out)@ == old(out)@)
        || exists|m: Map<Seq<char>, McpServerEntry>| #[trigger] gives(service.spec_store(), m)
            && if m.contains_key(args.name@) {
                r is Ok && final(out)@ == old(out)@ + encode_utf8(lines_of(m[args.name@].denied()))
            } else {
                r matches Err(e) && not_found(e, args.name@) && final(out)@ == old(out)@
            },
{
    let tools = service.get_denied_operations(args.name.as_str())?;
    let text = lines_text(&tools);
    write_text(out, text.as_str());
    Ok(())
}

/// The pairs as keys and values.
pub open spec fn pair_views(v: Seq<(String, String)>) -> Seq<(Seq<char>, String)> {
    v.map_values(|e: (String, String)| (e.0@, e.1))
}

/// Whether `e` is the entry that `add` registers from these arguments.
pub open spec fn builds(
    e: McpServerEntry,
    transport: TransportType,
    command: Option<String>,
    args: Vec<String>,
    env_vars: Vec<(String, String)>,
    url: Option<String>,
    headers: Vec<(String, String)>,
) -> bool {
    match transport {
        TransportType::Stdio => e matches McpServerEntry::Stdio(c)
            && c.command@ == (match command { Some(x) => x@, None => Seq::<char>::empty() })
            && c.args == args
            && c.env@ == map_from_pairs(pair_views(env_vars@))
            && c.allowed_operations@.len() == 0
            && c.denied_operations@.len() == 0,
        TransportType::Http => e matches McpServerEntry::Http(c)
            && c.url@ == (match url { Some(x) => x@, None => Seq::<char>::empty() })
            && c.headers@ == map_from_pairs(pair_views(headers@))
            && c.allowed_operations@.len() == 0
            && c.denied_operations@.len() == 0
            && c.auth is None,
    }
}

/// The entry that `add` registers: a stdio server from the command (empty
/// when missing), its arguments and environment, or an HTTP server from the
/// URL (empty when missing) and headers; no rules and no OAuth.
pub fn build_entry(
    transport: TransportType,
    command: Option<String>,
    args: Vec<String>,
    env_vars: Vec<(String, String)>,
    url: Option<String>,
    headers: Vec<(String, String)>,
) -> (e: McpServerEntry)
    ensures
        builds(e, transport, command, args, env_vars, url, headers),
{
    match transport {
        TransportType::Stdio => McpServerEntry::Stdio(StdioConfig {
            command: match command {
                Some(c) => c,
                None => String::new(),
            },
            args,
            env: StrMap::from_pairs(env_vars),
            allowed_operations: Vec::new(),
            denied_operations: Vec::new(),
        }),
        TransportType::Http => McpServerEntry::Http(HttpConfig {
            url: match url {
                Some(u) => u,
                None => String::new(),
            },
            headers: StrMap::from_pairs(headers),
            allowed_operations: Vec::new(),
            denied_operations: Vec::new(),
            auth: None,
        }),
    }
}

/// Registers the server described by `args`.
pub fn run_add<S: ProviderConfigStore>(service: &RegistryService<S>, args: AddArgs) -> (r: Result<(), RegistryError>)
    ensures
        load_refused(service.spec_store(), r) || exists|m: Map<Seq<char>, McpServerEntry>, e: McpServerEntry|
            #[trigger] gives(service.spec_store(), m)
            && #[trigger] builds(e, args.transport, args.command, args.args, args.env_vars, args.url, args.headers)
            && add_outcome(service.spec_store(), m, args.name@, e, r),
{
    let ghost a = args;
    let entry = build_entry(args.transport, args.command, args.args, args.env_vars, args.url, args.headers);
    let ghost e = entry;
    let r = service.add_provider(args.name, entry);
    proof {
        if !load_refused(service.spec_store(), r) {
            let m = choose|m: Map<Seq<char>, McpServerEntry>|
                #[trigger] gives(service.spec_store(), m) && add_outcome(service.spec_store(), m, a.name@, e, r);
            assert(gives(service.spec_store(), m) && builds(e, a.transport, a.command, a.args, a.env_vars, a.url, a.headers));
        }
    }
    r
}

/// What listing a server's tools gave, and the server's policy.
pub struct ProviderTools {
    pub name: String,
    pub filter: DefaultFilter,
    pub listing: Result<Vec<String>, String>,
}

/// The message for a tools request naming an unknown server.
pub open spec fn server_not_found_message(name: Seq<char>) -> Seq<char> {
    "server '"@ + name + "' not found"@
}

/// The servers whose tools the `tools` command lists: all of them, in name
/// order, or the one it names.
pub fn select_providers<V>(providers: &StrMap<V>, name: Option<&str>) -> (r: Result<Vec<String>, ProxyError>)
    ensures
        match r {
            Ok(v) => match name {
                None => v@.map_values(|s: String| s@) == providers.keys(),
                Some(n) => providers@.contains_key(n@) && v@.len() == 1 && v@[0]@ == n@,
            },
            Err(e) => name matches Some(n) && !providers@.contains_key(n@)
                && (e matches ProxyError::UpstreamInit { message } && message@ == server_not_found_message(n@)),
        },
{
    match name {
        Some(n) => {
            if providers.contains_key(n) {
                let mut v = Vec::new();
                v.push(String::from_str(n));
                Ok(v)
            } else {
                let mut m = String::from_str("server '");
                m.append(n);
                m.append("' not found");
                Err(ProxyError::UpstreamInit { message: m })
            }
        },
        None => {
            let k = providers.len();
            let mut v: Vec<String> = Vec::new();
            let mut i: usize = 0;
            while i < k
                invariant
                    i <= k,
                    k == providers.keys().len(),
                    v@.len() == i,
                    forall|j: int| 0 <= j < i ==> #[trigger] v@[j]@ == providers.keys()[j],
                decreases k - i,
            {
                v.push(providers.key_at(i).clone());
                i = i + 1;
            }
            assert(v@.map_values(|s: String| s@) =~= providers.keys());
            Ok(v)
        },
    }
}

/// The line for a listed tool: allowed with the name clients see, or blocked.
pub open spec fn tool_line(server: Seq<char>, f: DefaultFilter, tool: Seq<char>) -> Seq<char> {
    if f.allows(tool) {
        allow_line(server, tool)
    } else {
        "  BLOCK  "@ + tool + "\n"@
    }
}

/// The lines for the listed tools.
pub open spec fn tool_lines(server: Seq<char>, f: DefaultFilter, tools: Seq<String>) -> Seq<char>
    decreases tools.len(),
{
    if tools.len() == 0 {
        Seq::empty()
    } else {
        tool_lines(server, f, tools.drop_last()) + tool_line(server, f, tools.last()@)
    }
}

/// The block for one server of the `tools` command.
pub open spec fn tools_block(p: ProviderTools) -> Seq<char> {
    match p.listing {
        Err(e) => p.name@ + "\n"@ + "  ERROR  "@ + e@ + "\n"@ + "\n"@,
        Ok(tools) => p.name@ + "\n"@
            + (if tools@.len() == 0 { "  (no tools)\n"@ } else { Seq::empty() })
            + tool_lines(p.name@, p.filter, tools@) + "\n"@,
    }
}

/// The blocks of all listed servers.
pub open spec fn tools_text(ps: Seq<ProviderTools>) -> Seq<char>
    decreases ps.len(),
{
    if ps.len() == 0 {
        Seq::empty()
    } else {
        tools_text(ps.drop_last()) + tools_block(ps.last())
    }
}

/// The block for one server.
fn tools_block_text(p: &ProviderTools) -> (t: String)
    ensures
        t@ == tools_block(*p),
{
    let mut t = String::from_str(p.name.as_str());
    t.append("\n");
    match &p.listing {
        Err(e) => {
            t.append("  ERROR  ");
            t.append(e.as_str());
            t.append("\n");
            t.append("\n");
            t
        },
        Ok(tools) => {
            if tools.len() == 0 {
                t.append("  (no tools)\n");
            }
            let ghost head = t@;
            let n = tools.len();
            let mut i: usize = 0;
            while i < n
                invariant
                    i <= n,
                    n == tools@.len(),
                    t@ == head + tool_lines(p.name@, p.filter, tools@.take(i as int)),
                decreases n - i,
            {
                assert(tools@.take(i + 1).drop_last() =~= tools@.take(i as int));
                let tool = tools[i].as_str();
                if p.filter.is_tool_allowed(tool) {
                    t.append(allow_line_text(p.name.as_str(), tool).as_str());
                } else {
                    t.append("  BLOCK  ");
                    t.append(tool);
                    t.append("\n");
                }
                assert(t@ =~= head + tool_lines(p.name@, p.filter, tools@.take(i + 1)));
                i = i + 1;
            }
            assert(tools@.take(n as int) =~= tools@);
            t.append("\n");
            t
        },
    }
}

/// Prints, for each server in turn, its tools and whether its policy lets
/// each through, or the error that listing them gave.
pub fn run_tools(providers: &Vec<ProviderTools>, out: &mut Vec<u8>)
    ensures
        final(out)@ == old(out)@ + encode_utf8(tools_text(providers@)),
{
    let mut text = String::new();
    let n = providers.len();
    let mut i: usize = 0;
    while i < n
        invariant
            i <= n,
            n == providers@.len(),
            text@ == tools_text(providers@.take(i as int)),
        decreases n - i,
    {
        assert(providers@.take(i + 1).drop_last() =~= providers@.take(i as int));
        let block = tools_block_text(&providers[i]);
        text.append(block.as_str());
        i = i + 1;
    }
    assert(providers@.take(n as int) =~= providers@);
    write_text(out, text.as_str());
}

/// The denylist part of a rules block has one `DENY` line per denied tool,
/// in order: the lines of two lists one after the other are the lines of the
/// first, then those of the second, and one tool makes one line.
pub proof fn law_deny_lines_one_per_tool(x: Seq<String>, y: Seq<String>, t: String)
    ensures
        deny_lines(x + y) == deny_lines(x) + deny_lines(y),
        deny_lines(seq![t]) == "  DENY   "@ + t@ + "\n"@,
    decreases y.len(),
{
    if y.len() == 0 {
        assert(x + y =~= x);
        assert(deny_lines(x) + deny_lines(y) =~= deny_lines(x));
    } else {
        law_deny_lines_one_per_tool(x, y.drop_last(), t);
        assert((x + y).drop_last() =~= x + y.drop_last());
        assert((x + y).last() == y.last());
        assert(deny_lines(x + y) =~= deny_lines(x) + deny_lines(y));
    }
    assert(seq![t].drop_last() =~= Seq::<String>::empty());
    assert(seq![t].last() == t);
    assert(deny_lines(Seq::<String>::empty()) =~= Seq::<char>::empty());
    assert(deny_lines(seq![t]) == deny_lines(Seq::<String>::empty()) + "  DENY   "@ + t@ + "\n"@);
    assert(deny_lines(seq![t]) =~= "  DENY   "@ + t@ + "\n"@);
}

/// The allowlist part of a rules block has one `ALLOW` line per allowed tool,
/// in order, each naming the tool and the name clients see,
/// `<server>__<tool>`.
pub proof fn law_allow_lines_one_per_tool(server: Seq<char>, x: Seq<String>, y: Seq<String>, t: String)
    ensures
        allow_lines(server, x + y) == allow_lines(server, x) + allow_lines(server, y),
        allow_lines(server, seq![t]) == "  ALLOW  "@ + pad_right(t@, 40) + " → "@ + server + "__"@ + t@ + "\n"@,
    decreases y.len(),
{
    if y.len() == 0 {
        assert(x + y =~= x);
        assert(allow_lines(server, x) + allow_lines(server, y) =~= allow_lines(server, x));
    } else {
        law_allow_lines_one_per_tool(server, x, y.drop_last(), t);
        assert((x + y).drop_last() =~= x + y.drop_last());
        assert((x + y).last() == y.last());
        assert(allow_lines(server, x + y) =~= allow_lines(server, x) + allow_lines(server, y));
    }
    assert(seq![t].drop_last() =~= Seq::<String>::empty());
    assert(seq![t].last() == t);
    assert(allow_lines(server, Seq::<String>::empty()) =~= Seq::<char>::empty());
    assert(allow_lines(server, seq![t]) == allow_lines(server, Seq::<String>::empty()) + allow_line(server, t@));
    assert(allow_lines(server, seq![t]) =~= "  ALLOW  "@ + pad_right(t@, 40) + " → "@ + server + "__"@ + t@ + "\n"@);
}

/// A row of the server table shows, for a name of at most 20 characters, the
/// name in the first 20 columns, the entry's transport (`stdio` or `http`)
/// in columns 22 to 31, and from column 33 the command or URL it points at.
pub proof fn law_list_row_columns(name: Seq<char>, e: McpServerEntry)
    requires
        name.len() <= 20,
    ensures
        list_row(name, e).len() == 33 + entry_target(e).len(),
        list_row(name, e).subrange(0, name.len() as int) == name,
        list_row(name, e).subrange(21, 31) == match e {
            McpServerEntry::Stdio(_) => "stdio     "@,
            McpServerEntry::Http(_) => "http      "@,
        },
        list_row(name, e).subrange(32, 32 + entry_target(e).len() as int) == match e {
            McpServerEntry::Stdio(c) => c.command@,
            McpServerEntry::Http(c) => c.url@,
        },
{
    reveal_strlit("stdio");
    reveal_strlit("http");
    reveal_strlit("stdio     ");
    reveal_strlit("http      ");
    reveal_strlit(" ");
    reveal_strlit("\n");
    let row = list_row(name, e);
    let p = pad_right(name, 20);
    let ty = pad_right(entry_type(e), 10);
    let target = entry_target(e);
    assert(p.len() == 20);
    assert(ty.len() == 10);
    assert(row =~= p + " "@ + ty + " "@ + target + "\n"@);
    assert(row.subrange(0, name.len() as int) =~= name);
    assert(row.subrange(21, 31) =~= ty);
    match e {
        McpServerEntry::Stdio(_) => { assert(ty =~= "stdio     "@); },
        McpServerEntry::Http(_) => { assert(ty =~= "http      "@); },
    }
    assert(row.subrange(32, 32 + target.len() as int) =~= target);
}

/// A listed tool's line: an allowed tool is shown padded, then the name
/// clients see, `<server>__<tool>`; a tool the policy blocks is shown as
/// blocked, with its bare name.
pub proof fn law_tool_line_text(server: Seq<char>, f: DefaultFilter, tool: Seq<char>)
    ensures
        tool_line(server, f, tool) == if f.allows(tool) {
            "  ALLOW  "@ + pad_right(tool, 40) + " → "@ + server + "__"@ + tool + "\n"@
        } else {
            "  BLOCK  "@ + tool + "\n"@
        },
{
    assert(allow_line(server, tool) =~= "  ALLOW  "@ + pad_right(tool, 40) + " → "@ + server + "__"@ + tool + "\n"@);
}

} // verus!
