# SoryOS AI Assistant — verified core

The decision-making core of the SoryOS desktop AI assistant, written in
Verus and proved against its contracts: the security policy that gates
every tool call, the turn state machine (provider → policy → confirmation
→ tool), the OpenRouter free-only guard, the request bodies and reply
parsers of the OpenAI-compatible and Gemini backends, the SSE stream
decoder, the `.env` key file reader and writer, the chat UI state machine,
the terminal command language and the tool answer formats.

Layout:

- `src/` — the verified library. Outside crates (`serde_json`, `chrono`,
  `uuid`, `reqwest`) are reached only through small trusted wrappers whose
  contracts state what the crates document.
- `tests/` — executable tests of the library.
- `app/` — the terminal program: HTTP, SQLite, files, processes, the
  terminal, and the floating-point parts of the configuration.

Laws of the library are public proof functions named `law_*`.
