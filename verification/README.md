# beacon_ops

Verified decisions of a beacon node about signed blocks and attester slashings.

- `src/` is the library. Publishing and reconstructing a block are written as tasks: a task says
  what has to be done next (`pending`), is told what came of it (`step`), and holds the answer in the
  end (`into_result`). It never waits for anything itself. Checking an attester slashing is a plain
  function.
- `app/` carries the tasks out for a running node: it sends messages, awaits the chain and the
  builder, logs, and turns answers into rejections of the web server.
- `tests/` runs the library.

Merkle roots of payload headers come from the `tree_hash` crate; what is taken on trust about it is
stated in `src/payload.rs`.
