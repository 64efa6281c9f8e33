# agent_runtime_core

The decision core of an agent runtime, verified with Verus: what a turn may do
next, what a security check set allows, what a grant covers, which model profile a
layered catalog resolves to, and how artifacts, goals, deadlines, cancellations, and
events behave.

- `src/` is the library. Every type has a mathematical model (its view), every
  function a contract over those models, and the properties that span functions are
  public proof functions: `checkpoint/laws.rs`, `check_set/laws.rs`,
  `catalog/laws.rs`, and at the end of the smaller modules.
- `app/` holds what is asynchronous or does I/O: the traits that a host implements,
  the driver that evaluates security checks concurrently, cancellation handles that
  tasks can wait on, and the JSON shapes. It takes every decision from the library.
- `tests/` runs the library on concrete values.

The library trusts three things from outside: that `serde_json` reads and writes JSON
as a function of the text, that its error type can be carried, and that the operating
system has a wall clock.

Some checks are not done here. Internal turn inputs, cache identities and cache
evidence, and interaction requests and responses are judged by the host that makes
them; the library holds the verdict beside the value, as its `defect`, and their
`validate` reports it. The JSON shapes carry the verdict along, so a host that
restores a checkpoint from storage it does not trust has to judge these values anew.
