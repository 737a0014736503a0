# agent_browser_cli

The verified core of the `agent-browser-cli` command line tool, which drives
a browser through a local daemon and a Playwright runtime.

- `src/` is the library, verified with Verus: escaping of query components,
  the request paths of the daemon endpoints, `KEY=VALUE` header parsing,
  text trimming and line splitting, the status and doctor verdicts, the
  skill installation plan, the choice of runtime files, and the JSON-RPC
  session bookkeeping with the Playwright runtime.
- `tests/` runs the library on concrete values.
- `app/` is the command line program around it: argument parsing, HTTP
  requests to the daemon, the runtime child process, files and the terminal.
