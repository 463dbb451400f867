# turbine_programs

Verified decision logic of two Anchor programs for Solana.

- `src/amm/`: a constant-product pool. `deposit`, `withdraw` and `swap`
  decide, from the pool's balances and what the constant-product curve
  computes, whether a request is refused and which SPL token instructions
  carry it out. `token.rs` models the balances those instructions move;
  `laws.rs` proves that a locked pool refuses everything, that deposits and
  withdrawals respect the caller's limits, and that no handler creates or
  loses tokens.
- `src/staking/`: the configuration written when staking is set up for an
  MPL Core collection.
- `app/`: the Anchor accounts, the calls into the curve, and the token CPIs
  that perform the library's instructions.
