# grox_codex

A client for the `codex app-server` JSONL protocol, and the routing of agent sessions between
Grok and a Codex subscription. What to send, what to show and whom to ask is decided in a
library that is verified with Verus; processes, streams and the Agent Client Protocol endpoint
stand around it in ordinary Rust.

- `src/text.rs`, `src/json.rs`, `src/codec.rs`: text, JSON values, and lines of JSON. The JSON
  crate reads and writes the text.
- `src/rpc.rs`, `src/handshake.rs`: requests, responses and notifications, and how a connection
  begins.
- `src/connection.rs`: a connection that is read by whoever waits on it, for the command.
- `src/server.rs`: a connection with a reader of its own, for the agent.
- `src/status.rs`, `src/models.rs`: the account and its models.
- `src/tools.rs`, `src/turn.rs`, `src/cli.rs`: tool activity, turns, and the `codex` command.
- `src/catalog.rs`, `src/protocol.rs`: the models that a session is offered.
- `src/error.rs`, `src/prompt.rs`, `src/prompting.rs`, `src/router.rs`: the agent, its sessions,
  and the prompts that go to Codex.
- `app/`: the command and the agent on top of the library.

The functions whose names begin with `law_` state what holds of the library as a whole.
