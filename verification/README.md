# iodine

A pipeline scheduler whose decisions are verified with Verus.

- `src/` is the verified library: the status vocabulary and its texts, the
  task dependency graph and what is ready or complete in a run, the
  launcher's scheduling and attempt bookkeeping, the coordinator's launcher
  table, the command router's routing table, the local execution manager's
  decisions, the registry's configuration and the definitions it serves, and
  how the scheduler takes in what a registry answers. Calls into `petgraph`
  and `uuid` go through trusted wrappers in `graph.rs` and `ids.rs`; the
  `serde_json` values and errors that the library carries are declared in
  `error.rs`, and the few JSON values it builds come from trusted wrappers in
  `proto.rs` and `registry.rs`.
- `tests/` exercises the library on concrete values.
- `app/` is the runtime around it: channels and tasks (`tokio`), processes,
  the GraphQL server (`async-graphql`, `axum`), YAML reading (`serde_yaml`),
  the storage interface, and the conversions between protobuf and JSON
  values, which go through floating-point numbers.
