# saturn_v1_lite

The rules of the Saturn treasury program (bonds, staking, cash-outs and the
bond quote), written in Verus and proved against their contracts.

- `src/` is the library. Every instruction is a function from the accounts'
  state, the instruction's arguments and the clock to the new state and the
  token movement to make, or the reason the instruction does not go through.
  Its effect is stated as a spec function (`*_effect`), and `src/laws.rs`
  proves properties that span instructions.
- `app/` is the on-chain program around it: the Anchor accounts, the reads of
  the clock and of token balances, the calls into the token program and into
  the lending and pool programs, and the mapping of refusals to errors and
  aborts.
- `tests/` runs the library on concrete values.
