# chat_router

The rules of a router for chat completions, verified with Verus.

- `src/chat` reads, normalizes and checks chat completion requests, and puts
  responses on the wire.
- `src/replica` keeps a router up to date with the active requests of its peers,
  also where events overtake the request they are about.
- `src/engine.rs` takes one request through a routed engine.
- `src/json.rs` says what the functions of `serde_json` do that the library calls.

The library decides and computes; it holds no lock, starts no task and reads no
clock. `app/` is the host around it: serde types, the tokio task that follows
peers, and the Python class. What the host must supply besides (the request
index, the worker table, the checks on the parts of a request, the engine) are
traits there.

What holds over several calls stands in public proof functions named `law_..`,
beside the functions they are about, in `src/replica/laws.rs` and in
`src/replica/delivery.rs`.
