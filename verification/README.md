# perps

A perpetual-futures protocol whose core is verified with Verus.

- `src/` is the verified library: fee, PnL, margin and liquidation arithmetic
  (`math`), the oracle price checks on Pyth price accounts (`math::oracle`),
  the state transition of each instruction over plain account values
  (`instructions`), the instruction wire format (`instruction`, `wire`), and
  the protocol's laws proved over them (`laws`).
- `app/` is the on-chain program around it: Anchor account validation, the
  lamport transfers, share mints and burns, the clock, and the dispatch of
  decoded instructions to the verified transitions.
- `tests/` exercises the library on concrete values.
