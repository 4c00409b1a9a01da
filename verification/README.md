# yukin

The core of the yukin desktop agent, written in Verus: every function of the
library under `src/` carries a contract that Verus proves.

## Layout

- `src/agent/tools.rs`: the built-in tools, their risk and approval policy,
  argument validation, and the binding of an approval to the exact arguments
  it was given for.
- `src/agent/skills.rs`: the built-in skills, and the tools a run that uses
  them may call.
- `src/agent/openai.rs`: the chat-completions wire protocol: request bodies,
  error mapping and the assembly of streamed events.
- `src/files/`: directories and files the user authorized, the registry of
  entries shown to the agent, listing, search, copy plans, moves and batch
  moves with their conflict rules.
- `src/path_safety.rs`, `src/paths.rs`: resolving a user path inside a root
  and the component model of paths.
- `src/workspace.rs`: reading, editing and listing files inside the
  workspace root.
- `src/runs.rs`, `src/response_stream.rs`: runs under way, tool-call approvals
  that wait for a decision, and what a streamed response passes on.
- `src/retention.rs`, `src/diagnostics.rs`: which log files and crash reports
  expire, and the limits on frontend error reports.
- `src/protocol/`: the values exchanged with the frontend.
- `app/`: a command-line front end that does the disk and network work; the
  library's walk and check steps decide what is shown, queued, refused or
  recorded.
- `tests/`: tests of the library on concrete values.

Calls into outside crates (hashing, hex encoding, identifiers, dates, path
cleaning, lossy text decoding) stand behind small trusted wrappers in `src/`
whose contracts state what those crates document.
