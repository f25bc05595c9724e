# livermore_vesting

Token vesting for a project token on Solana, verified with Verus.

Vesting requests are split into schedules by stakeholder group (market:
one month; data purchase: half after six months, half after a year; team:
three years), and each project year's issuance is held to a yearly total
limit of 42 million tokens over five project years.

The limits per vesting type (market 12.6 million, data purchase 21
million, team 8.4 million tokens) cap each single request of that type.
Across requests only the year's total is capped: the issuance of one
type within a year may grow past its own allocation, as long as the
year's total stays within 42 million.

- `src/` is the verified library: the account and instruction layouts,
  the schedules, the yearly limits, and the program's decisions on its
  create and unlock instructions (`processor.rs`), each step with an exact
  contract. `runtime.rs` holds the calls into `solana_program`,
  `spl_token_2022` and `spl_associated_token_account`, each behind a small
  function whose contract is trusted.
- `app/` is the on-chain entrypoint: it reads the accounts, runs the
  verified steps, and performs the cross-program calls and account writes
  between them.
- `tests/` runs the library against the real outside crates.
