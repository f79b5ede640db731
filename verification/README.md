# airfrog

A verified library for an ARM SWD debug probe, written in Verus.

- `src/` is the library. Every function in it carries a `requires` /
  `ensures` contract that Verus proves: SWD command encoding and parity,
  DP/AP/MEM-AP register values, STM32 and RP2040 identification, STM32
  flash geometry and flash controller register values, the connection
  state of an SWD interface, and the plans for bulk transfers (1 KB
  chunking, posted DRW reads, STM32G0 double-word programming).
  The laws that span several functions are public proof functions whose
  names start with `lemma_`.
- `tests/` runs the library on concrete values.
- `app/` is an asynchronous driver that does the wire-level work, through
  the `SwdWire` trait, and the waiting (with `embassy-time`). It asks the
  library what to do at each step (what to send, whether to retry, which
  register values to write, how to split a transfer, which reset to try
  next, which error to report) and keeps the library's connection state up
  to date. What stays in it is the order of the wire operations within
  one step and the polling loops.
