# framecast

The domain core of the Framecast storyboard-to-video service, written in
Verus. The functions in `src/` carry contracts that Verus proves, except the
small wrappers around outside crates (UUIDs, clock, randomness, hashing, hex,
base64, JSON and token decoding), whose contracts are trusted and whose doc
comments say what is assumed of them.

## Layout

- `src/` — the verified library
  - `state.rs` — job, project, invitation and webhook-delivery state machines
  - `urn.rs` — resource names (`framecast:user:…`, `framecast:team:…`, …)
  - `roles.rs`, `users.rs`, `work.rs`, `hooks.rs` — entities and their invariants
  - `permissions.rs` — authorization by tier, membership, ownership and scope
  - `authn.rs` — authentication decisions, credential extraction, API key lookup
  - `crypto.rs`, `ids.rs`, `json.rs`, `text.rs` — hashing, identifiers, payloads, text
  - `error.rs`, `extract.rs`, `settings.rs` — errors, request inputs, configuration
  - `mail.rs`, `mail_templates.rs` — email messages, templates, SES requests, mock delivery
  - `llm.rs` — completions: mocks and the Anthropic request/response logic
  - `events.rs`, `render.rs` — workflow events and render backends
- `tests/` — tests run against the compiled library
- `app/` — the program around the library: environment, the HTTP server and
  its authentication extractors, JWT validation, SES delivery, outgoing HTTP
  calls, JSON wire formats, floating-point job progress

Contracts are stated over mathematical models (`Seq`, `Map`, `int`).
