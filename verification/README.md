# athena

The core of the Athena agent as a Verus-verified library, and the programs
around it.

- `src/` — the verified library (`athena`):
  - `budget` — the iteration budget of a conversation.
  - `message` — messages, tool calls, agent events and skills, with their views.
  - `conversation` — the conversation state machine (turns, replies, tool
    results, skill bookkeeping) and the collector that turns a stream of
    events into an answer.
  - `stream` — gathering a streamed model reply (text and tool-call fragments).
  - `context` — token counting (through `tiktoken-rs`) and context compression.
  - `skills` — prompts and reply parsing for skill synthesis, skill
    improvement and the memory nudge; the agentskills.io exchange format.
  - `kanban`, `sessions`, `tools` — the rules of the built-in tools.
  - `gateway` — cron schedules and listings, Slack, WhatsApp and the terminal
    UI's JSON-RPC routing; dashboard file names and templates.
  - `prompts` — the system prompts.
  - `agent` — agent settings and the builder.
  - `text`, `ids` — string helpers and fresh identifiers (through `uuid`).
- `tests/` — tests of the library on concrete values.
- `app/` — the programs: the command line, the Telegram/Slack/WhatsApp/Discord
  gateway, the dashboard and the terminal UI bridge. They do the I/O (model
  requests, SQLite, files, sockets) and leave the decisions to the library.
