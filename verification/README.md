# piv1

Accounting primitives and the bounded state model of a perpetual-principal
vault on Solana, with every function's contract proved by Verus.

## Layout

- `src/` — the verified library.
  - `math.rs`: checked multiply-divide, the fixed gross-yield split, the
    high-water mark and the KIF allocation.
  - `state/`: configuration, distribution rounds and withdrawal legs, guardian
    registry and rewards, timing, contributions, custody reconciliation,
    bootstrap, principal deposits, KIF claims, and the lifecycle transitions
    (open, initiate and finalize legs, settle, integrate pending value).
  - `account_view.rs`, `accounts.rs`, `kif_claim_accounts.rs`,
    `guardian_clock_accounts.rs`, `state_persistence.rs`,
    `kif_claim_execution.rs`: authentication of runtime accounts observed as
    plain values, state envelopes and atomic byte persistence, and the staged
    steps of claim execution.
  - `pending_accounts.rs`: authentication of the four pending-recognition
    accounts and the staged recognition of pending contributions.
  - `squads_accounts.rs`, `squads_execution.rs`: the loader-v3 upgrade
    authority, Squads v4 multisig decoding, proposal, vault-transaction and
    outer-instruction checks, and the current-governance and bootstrap
    authorization of a Squads-executed instruction.
  - `genesis_model.rs`, `genesis_preflight.rs`, `genesis_recipients.rs`,
    `genesis_allocation.rs`, `genesis_initialization.rs`: the approved genesis
    model (topology, proposed configuration, aliases), the target and
    recipient preflights, the staged allocation batch (payer checks, plans,
    expected effects and their checks), and initialization (completion roles,
    the nine initial envelopes, the expected Token account bytes, the checks
    before the writes, after each stage and of the final fixed accounts). The proposed configuration binds the
    System program's all-zero address, which configuration validation
    refuses, so preparation ends in `InvalidAddress` once every earlier check
    passes; the contracts state this.
  - `integrations/`: Jito stake-pool identity decoding and authentication, and
    the stake-pool adapter contract.
  - `instructions/`: instruction data codecs and the genesis model layout.
  - `laws.rs`: properties of the library as a whole.
- `tests/` — executable tests of the library.
- `app/` — the runtime edge: observing `AccountInfo`s, Borsh payloads, rent
  pricing, the stack height and sysvars of a Squads invocation, persisting a
  reconciled configuration, the System and Token invocations and the state
  writes of genesis allocation and initialization, the signed System transfer
  of a claim, program errors, events and error text.

Runtime inputs that are not plain values (account infos, rent, the program
ID) are observed in `app/` and handed to the library, which decides.
