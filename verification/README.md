# staking_spl

Reward accounting of a staking pool for SPL tokens, verified with Verus.

Depositors lock tokens in a vault shared by the pool; the pool emits a fixed
number of reward units per second, shared among the stakes in proportion to
their size through a cumulative reward index.

The instructions are `initialize`, `deposit_spl`, `claim_rewards_spl` and
`close_position_spl`. There is no fee withdrawal: the pool state records no fee
balance to withdraw (and no error for an empty one), so `WithdrawFeesEvent` is
only declared.

- `src/` — the library, verified: the pool and stake state (`states/`), the
  reward index (`rewards.rs`), the instructions as state transitions with exact
  contracts (`instructions/`), and the laws that hold across them (`laws.rs`).
- `tests/` — tests of the library on concrete values.
- `app/` — the on-chain program built with Anchor: account validation, the
  clock, token transfers, minting and events around the library's transitions.
