# sepp-rs

A client library for the [sepp](https://github.com/sepp-org/sepp) job queue,
with its decisions verified in [Verus](https://github.com/verus-lang/verus).

- `src/` holds what a client and a worker decide, with contracts that are
  proved: which requests are valid and what is sent for them, what is made of
  each answer, which failed calls are retried, how a trace is propagated, and
  how a worker's loop reserves, processes and drains jobs.
- `app/` is the network side: connections, timers, tasks, logs and metrics. It
  drives `src/` and performs what that decides.
- `tests/` runs the library on concrete values, with the outside crates linked.

Where to look first:

| module | what it states |
| --- | --- |
| `request`, `reserve` | valid requests and their wire form |
| `job`, `server_info` | decoding what the server sends |
| `trace`, `otel` | W3C trace contexts, and the link from producer to worker |
| `client::calls` | the contents of each call |
| `client::errors`, `client::retry` | how failures are reported and retried |
| `worker::run` | the worker's loop: nothing is lost, and nothing is reserved after shutdown |
| `worker::dispatch`, `worker::heartbeat` | the fate of a job, and keeping its lease alive |

What the proofs rest on are the declarations of outside functions: those of
`std::time` in `time`, of the standard formatter in `text`, of `opentelemetry` in
`otel`, of `tonic` in `status`, `client::auth`, `client::builder` and
`client::endpoint`, and of `uuid` in `worker::identity`. Each says in its comment what it claims.

Floating point stays out of `src/`: a 64-bit float is carried as its bit pattern,
and the growth and jitter of retry delays are computed in `app/`. The cap on that
growth is not: it stands in `client::retry`.
