# niya

A terminal coding agent: it sends the conversation to an OpenAI-compatible
chat endpoint, lets the model call tools (read, write and edit files, run
shell commands, search with glob and grep), gates every call through a
permission policy, and feeds the results back until the model answers.

The library in `src/` holds the agent's logic, verified with Verus:

- `orchestrator`: the agentic loop as a state machine. Each step says what
  the caller must do next (call the provider, read the stream, probe the file
  system, ask the user, run a tool) and takes the outcome back.
- `permission`, `path_safety`: the permission policy and the path checks.
- `context`, `session`: prompt assembly, token budget, history; the audit log.
- `provider`, `sse`: request bodies, HTTP status handling, the event stream.
- `file_tools`, `shell`, `search`, `builtin`, `tool`, `tool_schema`: the tools
  and their registry.
- `config`, `merge`, `schema`, `loader`: configuration, its layers and checks.
- `commands`, `repl`, `renderer`: what the terminal loop does and shows.
- `json`, `string_map`, `text`, `paths`, `replace`, `pattern`, `types`: the
  data the rest is built on.

`app/` is the program around it: command line, configuration files, HTTP,
the file system, processes and the terminal.
