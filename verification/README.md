# web_backend

The verified core of a Rust web backend (REST and JSON-RPC routes, a
server-sent-events price stream, a web socket, Kafka producers and
consumers, ScyllaDB and Redis storage), written in Verus.

- `src/` is the library that Verus verifies: password hashing with two
  schemes (`pwd`), the request context (`ctx`), configuration loading from an
  environment snapshot (`envs`, `config`), RFC 3339 time stamps (`time`),
  story records, paging state, cache keys and the cache-aside decisions
  (`hnstory`), RPC routing (`rpc`), the login check, the echo socket and the
  error response mapper (`web`), retry policies and the rounds of reading the
  latest price (`retry`), Kafka client settings and the consumer's
  per-message decision (`kafka`), the price stream's events (`sse`) and the
  development database set-up with its run order (`dev_db`).
- `app/` is ordinary Rust around it: the process environment and the
  configurations loaded once per process, the JSON forms of the records,
  the loops that run the library's step functions, the file system side of
  the database set-up, and the floating-point price record.
- `tests/` exercises the library on concrete values.
