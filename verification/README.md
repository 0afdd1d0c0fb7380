# text_intelligence

A small HTTP service that issues session tokens and forwards text (given directly or
fetched from a URL) to the Deepgram Read API for summaries, topics, sentiment and intents.

- `src/` is the library, verified with Verus:
  - `text.rs`: character-level helpers (prefix, substring search, blank text).
  - `reply.rs`: the replies the service sends, and the health, not-found and metadata endpoints.
  - `config.rs`: listen address, API key, session secret, start-up banner.
  - `session.rs`: issuing and checking session tokens, and the session gate of requests.
  - `analysis.rs`: the analysis endpoint as steps (fetch, read, call Deepgram) and the
    replies for each outcome.
- `app/main.rs` is the server: environment, routing, CORS, HTTP calls, file reading and
  rendering of replies as JSON.
- `tests/` exercises the library with the real outside crates.
