# rbus

A request/response and event bus between modules, carried over redis lists
and channels, with MessagePack-encoded arguments.

- `src/` is the verified library: object identities and argument lists
  (`protocol`, `wire`), the keyed registry (`table`), routing of requests to
  handlers and objects and the decisions of a module server's loop
  (`server`), the caller's view of queues, channels and responses
  (`client`), the rules by which an annotated service trait becomes an
  object and a stub (`interface`), the demo handlers (`demo`), and the
  properties that span several operations (`laws`). `msgpack` holds what the
  library relies on about `rmp_serde`.
- `app/` holds the redis and tokio side: the client, the server loop and its
  workers, the serde forms of requests and responses, and the demo program.
