# loom

A verified library for a self-hosted GPU compute stack: the domain rules of the
control plane, the in-process event bus, the agent wire protocol, the agent gateway
and the host agent. It is written in Rust and verified with Verus: what each function
does is stated in its contract and proved.

## Layout

- `src/domain/`: identifiers, job and attempt states, leases and fencing, capability
  and placement, usage records.
- `src/bus/`: topics, messages, the in-process bus, the outbox relay.
- `src/proto/`: the messages, the framing codec, the golden vectors, what an inbound
  WebSocket message means.
- `src/agentproto/`: the gateway. Its security bootstrap (tokens, the local certificate
  authority and which certificates it can write, the secrets layout), enrollment, agent
  events, and how a connection is served.
- `src/hostd/`: the host agent. Configuration, backoff, node identity, its side of
  enrollment.
- `src/enrollment.rs`: what the two sides of enrollment make of each other.
- `src/store.rs`: the rows that are persisted.
- The other files of `src/` hold text, numbers, spans of time, hexadecimal, the random
  source and the wall clock.
- `tests/`: tests of the library from outside.
- `app/`: the host agent's `main` and the I/O around the library.

## How it is put together

Decisions live in the library and I/O lives in `app/`. Where work alternates between
the two, the library holds a machine that says what to do next and takes what came of
it: `bus::relay::Drain`, `agentproto::terminator::step`, `hostd::enroll::Retry`.

Calls into other crates stand behind small wrappers with contracts that are believed,
not proved. Each names the function it calls and says what it claims of it. Where a
result is chance (a key, a signature, a nonce), contracts say where it came from and
what was made of it, not what it is.

Properties that span several functions are public proof functions, each next to the
functions it speaks of.
