# agent

The LLM-API-call daemon's library, verified with Verus, and the programs
around it.

- `src/` — the verified library.
  - `contract` — the ordinary call contract as plain values: prompts, options,
    requests and replies.
  - `registry` — the provider registry (configure, retire, default), matching a
    prompt to a provider and resolving it into a provider call.
  - `provider` — provider calls, the structured-output instruction and
    correction turn, the offline fixture, the chat-completions request body
    and the reading of a provider's HTTP answer.
  - `engine` — one ordinary request as a state machine: each step is the
    reply or the next effect (secret lookup, provider call, structured-output
    check) together with the state to resume with its result.
  - `meta` — the meta tier's orders applied to the registry.
  - `config`, `writer` — the daemon's startup configuration and the
    configuration writer's requests.
  - `json`, `redact`, `interaction_log` — provider interaction records with
    credentials kept out.
  - `client` — what a reply frame means for the request the client sent.
  - `text` — string helpers.
- `tests/` — tests of the library on concrete values.
- `app/` — the daemon, the command-line client and the configuration writer:
  sockets, frames, HTTP, secret backends, files and archives.
