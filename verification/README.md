# codex-mcp-client

A client for Model Context Protocol (MCP) servers, over the standard streams of a spawned server or
over HTTP.

- `src/` is the library: every decision of the client, verified with Verus. It says what to send,
  what to answer and what to make of the answers, and does no input or output.
- `app/` is the program around it: sockets, processes, the clock, and the command line.
- `tests/` runs the library on concrete values.

The calls that the library makes into `serde_json`, `rmcp` and the HTTP types of `reqwest` stand
behind small functions marked `external_body`. Their contracts are not proved; a comment above each
says which outside function it calls and what is claimed of it.
