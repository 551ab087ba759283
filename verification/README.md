# fil_webapi

Sends the sealing step "commit phase 2" of a Filecoin storage provider to remote web API
servers, while holding a resource of a local scheduler service for the duration of the work.

Layout:

- `src/` — the verified library.
  - `scheduler.rs`: the scheduler's messages and their protobuf wire encoding, with the laws
    that every message decodes back from its encoding.
  - `scheduler_grpc.rs`: the scheduler's gRPC method table — the calls a client makes, the
    table a server routes by — with the law that every client call is routed to the table entry
    of the same method; `app/` then invokes that entry's handler method on the service.
  - `wire.rs`: varints and fields of the protobuf wire format.
  - `webapi.rs`: server choice, reply checks, retry on busy servers, job polling, waiting for
    and keeping a scheduler resource, and the answer of the C entry point.
  - `util/rpc.rs`: the plain web API endpoint.
  - `json.rs`, `decimal.rs`: JSON documents through `serde_json`; decimal rendering.
- `app/` — the runtime: configuration file, HTTP (`reqwest`) and gRPC (`grpc`) transport, the
  keep-alive thread and the `extern "C"` entry point.
- `tests/` — tests of the library.
