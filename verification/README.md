# captcha-plugin

A gRPC captcha plugin server in the go-plugin style: a click service, a
slide service and the gRPC health service.

- `src/` is the verified library. `messages.rs` holds the request and
  response values; `job.rs` the state machine that turns a request into solver
  calls and a reply; `services.rs` how each request of each service starts its
  job; `plugin.rs` the handshake and log lines; `laws.rs` what holds of every
  job (failures end it, replies are well shaped, it always terminates, a slide
  solve pauses before it submits) and the complete runs of the solves.
- `app/` is the program: it listens, prints the handshake, serves gRPC, and
  runs each job on a blocking worker, performing the calls on the solver
  objects (`abstraction`, `click`, `slide`, `error`, `w` modules) and
  sleeping where a job pauses. `app/proto.rs` includes the protobuf code
  generated from the plugin's `.proto` files (`captcha` and
  `grpc.health.v1`); this crate does not hold those files, the solver
  modules, or a build step that generates the code, so `app/` builds only
  beside them. The version reply names the commit in `GIT_COMMIT` when the
  build sets it, and "unknown" otherwise.
