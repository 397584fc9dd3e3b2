# semantic_core

A verified model of a kernel's semantic object graph: the tables of block,
storage, device I/O, network, display, scheduler and guest-memory records, the
validation that decides whether a new record may enter the graph, the audits
that check every table, and the preflight of commands against the graph.

Everything under `src/` is checked by Verus; the library has no trusted items of
its own.

- `graph.rs` holds `SemanticGraph`, one table per record kind plus the event
  log, and `agrees_except`, the frame condition used by every operation.
- Each `*_object.rs`, `*_wait.rs`, `*_benchmark.rs`, ... module owns one table:
  a `*_verdict` spec function that states, message for message, why a request
  is refused; `validate_*`, which computes it; `record_*`, which appends the
  record and its event exactly when the verdict accepts; a `*_fault` spec and
  `check_*_invariants`, which computes the table's audit.
- `display_cleanup.rs` unmaps, releases and revokes what a store holds over a
  display; `display_cleanup_audit.rs` proves that an accepted cleanup keeps the
  cleanup audit clean.
- `capability.rs` models the capability ledger: grants under fresh ids,
  revocations, and the hostcall log.
- `scheduler_preflight.rs`, `activation_preflight.rs`, `interrupt_preflight.rs`,
  `activation_wait_preflight.rs` and `wait_preflight.rs` decide the hart,
  runnable-queue, runtime-activation, context, timer, ipi, preemption,
  activation-wait and socket/io wait commands; `cleanup_transaction.rs`
  begins, steps and commits cleanup transactions; `activation_waits.rs` blocks
  activations on waits, cancels those waits and cleans up after store faults; `waits.rs` creates,
  resolves and cancels wait tokens.
- `command.rs` holds `SemanticCommand`, the preflight of each command, and
  `apply_lifecycle_command`, which applies the lifecycle commands.
- `block_request_queue.rs` also states that every block request queue stays
  ordered by sequence, with distinct ids, whatever is recorded.
- `invariants.rs` chains the table audits into `graph_audit`.

Laws proved about the graph are the public `lemma_*` proof functions; the
tests under `tests/` run the library on concrete graphs.
