# freelancer_escrow

A milestone escrow between a company (`empresa`), a freelancer and an arbiter
(`arbitro`), with its rules verified in Verus.

- `src/contract.rs` — each operation (`initialize`, `deposit`,
  `approve_milestone`, `release`, `dispute`, `resolve`, `cancel`,
  `query_escrow`) as a decision on the stored escrow: the authorization it
  demands, then the error it returns, an abort on arithmetic overflow, or the
  action it takes (storage update, token transfers, lifetime extension, event).
  Every decision is specified by a spec function (`deposit_plan`, ...).
- `src/lib.rs` — `FreelancerEscrow`, the contract's storage with every call run
  to the end for a given set of signers; a failed call leaves the storage as it was,
  and the token transfers a call returns are for its caller to carry out.
- `src/laws.rs` — properties across operations: the stored escrow stays well
  formed, the agreed terms never change, approvals are never withdrawn, closed
  escrows refuse everything, signatures are required, refunds and payouts.
- `app/` — the Soroban contract: storage, token transfers, `require_auth` and
  events, driven by the verified decisions.

The library holds the milestones and their paid marks in std `Vec`s. The
contract stores them in Soroban's `Vec`, which lives in the host, needs an `Env`
and takes only `#[contracttype]` values; that derive belongs to soroban-sdk and
cannot stand in the verified library, so `app/types.rs` converts at the storage edge.
