# mcp_gateway

A proxy/firewall for Model Context Protocol (MCP) servers, with its logic
verified in Verus.

- `src/` is the verified library. `text`, `path` and `strmap` hold the text,
  path and sorted-map primitives the rest is stated over. `config` and
  `configuration` are the configuration model (first and current form),
  `filter` the allowlist/denylist policy, `template` the `{{name}}` argument
  templates of CLI tools, `cli_runner`, `cli_tools` and `cli_execution` the
  CLI tools and operations, `registry` and `ui` the registry commands and
  what they print, `cli` and `ui::command` the command-line types, `daemon`
  and `process` the PID files, run directory, instance stopping and log
  stream, `oauth` the sign-in steps and the redirect endpoint, and `proxy`
  the transport headers, errors and stand-in authorization endpoints.
  Steps that wait on the outside world (signals, file removal, the OAuth
  client) are state machines: the library decides, the caller acts and
  reports back.
- `app/` is the `mcp-gateway` program: `clap` and `serde` forms of the
  library's types, the configuration file on disk, the registry, OAuth
  credential and instance commands, and the loop that runs the library's
  instance-stopping machine against the operating system. Serving, querying
  MCP servers and signing in are not part of the program: the OAuth
  sign-in machine and the tool listing are in the library only.
- `tests/` exercises the library through its public interface.
