# pyvm

The core of a Python virtual machine: attribute access, calls and tracing,
operators and comparisons, conversions, imports, frames, exceptions, and the
beginning of an interpreter and of its threads.

The machine decides; a host does what is behind type slots and outside of the
machine. An operation ends with a `Step`: it is done with an outcome, or it asks
the host for something. The host performs the request and calls
`VirtualMachine::resume` with its reply. A third kind of step tells the host that
it must panic.

- `src/object.rs`, `src/context.rs`: objects, classes, the heap, the built-in
  classes.
- `src/protocol.rs`, `src/machine.rs`, `src/resume.rs`: requests, continuations,
  steps, and how an operation goes on after a reply.
- `src/calls.rs`, `src/attributes.rs`, `src/operators.rs`, `src/compare.rs`,
  `src/convert.rs`, `src/modules.rs`, `src/frames.rs`, `src/errors.rs`,
  `src/lifecycle.rs`: the operations. The contract of each says exactly which
  state and which step it leaves behind.
- `src/compile.rs`, `src/guard.rs`, `src/thread.rs`, `src/failure.rs`,
  `src/settings.rs`: the smaller parts.
- `src/runs.rs`, `src/laws/`: whole runs, and what is proved of them.
- `app/`: ordinary code that drives the machine.
- `tests/`: a small host, and scenarios that it plays through.
