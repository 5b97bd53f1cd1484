# xnt_vault

Verified rules of a single-asset auto-compounding vault: share math, deposit,
withdraw, compound and the admin instructions, each with a contract proved by
Verus (`src/`). ``app/` is the on-chain program around them: account
deserialization, token transfers and event emission.

Layout of `src/`:
- `math.rs`: shares minted by a deposit, assets paid by a redemption.
- `state.rs`, `events.rs`, `errors.rs`, `key.rs`, `constants.rs`: the records.
- `instructions/`: one module per instruction, with its specification
  (`spec_*`), its checking half (`validate`), its applying half (`settle`) and
  the whole instruction (`handle`).
- `proofs.rs`, `laws.rs`: arithmetic facts and properties spanning
  instructions (rounding never favours the caller, pauses and roles hold).
