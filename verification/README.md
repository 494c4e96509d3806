# kedai_server

The server side of Kedai, a local role-play chat front end: an HTTP API over
characters, chat sessions, world books, prompt presets and LLM backends.

The decisions the server makes are written in Verus and proved against their
contracts; the HTTP plumbing around them is ordinary Rust.

## Layout

- `src/` — the verified library.
  - `agents/` — the agent run's state machine and its laws.
  - `connectors/` — the mock backend, the OpenAI-compatible backend (request
    bodies, retry policy, the streaming SSE parser) and backend selection.
  - `api/` — the logic of each endpoint: request checks, error replies, the
    security guard and bootstrap limiter, request ids, static-file paths, the
    resource proxy's address screen and charset detection, world-book
    injection into free generations, the checks of a chat send, settings
    updates in either mode, prompt-preview assembly, and the rest.
  - `world_book.rs`, `llm.rs`, `json.rs`, `text.rs`, `config.rs`, `utils/` —
    shared models: world-book triggering, LLM messages and chunks, a JSON
    value model, character-level text operations, the environment
    configuration and the truncation-heal budget.
- `tests/` — tests of the library on concrete values.
- `app/` — the binary: configuration from the environment, the axum router,
  middleware, the streaming LLM calls and the proxy's network I/O, all of
  which hand plain values to the library and act on what it returns.

Calls into outside crates (`serde_json`, `encoding_rs`, `uuid`, URL and
authority parsing) stand behind small trusted wrappers whose doc comments say
what their contracts claim.
