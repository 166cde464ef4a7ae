# stellar_spend

Verified core of the Stellar-Spend Soroban contracts.

- `src/` — the verified library (Verus):
  - `escrow` — time-locked custody of off-ramp deposits: deposit, release by
    the settlement authority, permissionless refund after the timeout,
    timeout configuration, deposit IDs (hex of SHA-256 over depositor,
    bridge, ledger and a monotonic counter);
  - `fee_manager` — pausable basis-point fee calculation and volume tiers;
  - `multisig` — M-of-N proposals with a high-value quorum;
  - `treasury` — tiered fee collection, fee schedule and treasury address;
  - `auth`, `errors`, `token` — shared quorum/admin checks, error codes, and
    token calls: the exact call handed to the token contract and the mapping
    of its reply;
  - `address`, `invocation`, `table`, `host` — addresses as plain values, the
    facts of one invocation (signers, ledger), a byte-keyed map, and the few
    Soroban host services and types called directly (SHA-256, address XDR,
    address generation, the fee schedule's host map).

  Every entry point is specified as a transition of a mathematical model of
  the contract's storage (`*_spec` functions); the laws of each contract are
  proof functions next to it.
- `app/` — the Soroban contracts themselves: storage, authorisation and events
  around the library's transitions.
- `tests/` — behavioural tests of the library.
