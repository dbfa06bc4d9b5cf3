# evm_indexer

An Ethereum block indexer and pending-transaction simulator, with its core logic
verified by Verus.

- `src/` is the verified library: the object pool, block models and their checks,
  the batching of fetched blocks into the repository (a state machine driven from
  outside), the steps of a batched database write, the checks a pending transaction
  must pass before execution, the in-memory store of executed transactions, the HTTP
  handler's answer and the error texts. Calls into `alloy` (256-bit arithmetic, hash
  parsing and printing, signature recovery, random values) stand behind small trusted
  wrappers whose contracts say what the library relies on.
- `tests/` runs the library on concrete values.
- `app/` is the program around it: command line, configuration loading, the node,
  database and HTTP connections, and the loops that feed events to the library's
  state machines and carry out the actions they return.
