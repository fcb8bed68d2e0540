# cosurf

The core of an AI-assisted desktop browser, written in Verus: the agent loop
that turns model replies into tool calls, the management of the conversation
context, tool scheduling and routing, skills, MCP routing and replies,
navigation history, page caching and the text rules these rest on. Each
function states what it returns in its contract, and Verus proves it.

Layout:

- `src/` — the verified library.
  - `text.rs`, `keyed.rs`, `tool_schema.rs`, `error.rs` — shared text
    operations, keyed lists viewed as maps, tool parameter schemas, errors.
  - `native/` — the agent loop (`ai/stream.rs`), one streamed turn event by
    event (`ai/turn.rs`, `ai/accumulate.rs`), context
    management, scheduling, checkpoints, skills, MCP routing, the tool
    registry, and the records of the database.
  - `desktop/` — navigation history, page cache and context, sandbox, tool
    routing, command screening, skills, MCP sessions and replies, the MCP
    discovery exchange (`initialize`, then `tools/list`) and the function
    schemas built from it, web tools (page text, the web-search request and
    the reading of its reply).
- `tests/` — tests of the library.
- `app/` — the I/O around it: SQLite, files, processes, HTTP streaming, the
  MCP client over stdio, streamable HTTP and SSE, the web-search call, and
  the agent loop driver.
