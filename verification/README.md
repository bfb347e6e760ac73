# phased_staking

A phased staking deal on Solana, with its logic verified in Verus.

An underwriter opens a deal with a deposit and fixes a senior tranche;
liquidity providers stake into the deal until the tranche is filled; the
borrower then draws everything deposited and owes the deposit plus the tranche.

- `src/state.rs` – the deal's phases, account data and refusals.
- `src/keys.rs`, `src/pda.rs` – account keys, seed schemes and address derivation.
- `src/context.rs` – the accounts of each instruction and their constraints.
- `src/ido.rs` – the instructions; each returns the token transfer it makes.
- `src/laws.rs` – properties across instructions (phase codes, the tranche cap,
  phase progression, the borrower drawing exactly what was deposited).
- `app/` – the Anchor program that reads accounts, calls the library, performs
  the transfers and stores the results.
