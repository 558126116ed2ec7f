# flowy-router

Routing logic for an OpenAI-compatible gateway that sends each
chat-completions request of an agent to an edge model, a cloud model, or a
cascade (edge first, cloud when the edge answer is not good enough).

The library decides what it can from the request, the configuration and the
upstream results: admission, the routes fixed by configuration or by hard
gates, the cascade steps, and what each outcome records. Classifying the step
kind, scoring difficulty and the session store are not part of it, so the
`flowy` program in `app/` does not serve `/v1/chat/completions`: it runs the
health and admin endpoints, keeps the counters and prints statistics.

`src/` is the library, written in Verus. Every function carries a contract and
is proved against it:

- `routing/` — request signals (token estimates, tool calls, intents), hard
  gates, the decisions settled before scoring, upstream availability and the
  work-step policy;
- `upstream.rs` — the cascade quality gate and the next step of a completion;
- `stats/` — traffic counters, their consistency and the usage read from
  server-sent events;
- `experience/` — request outcomes and the per-step counters learnt from them;
- `config/`, `api/`, `multimodal/` — upstream setup patches, admin checks and
  names, capability records.

`app/` is the `flowy` program around it: the HTTP server (axum), an upstream
HTTP client (reqwest) built on the cascade steps, JSON files, and the parts
that compute in floating point (averages, rates, the experience bias and the
verification sample).

`tests/` runs the library on concrete values.
