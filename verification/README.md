# stellar_swipe

Verified core of the StellarSwipe Soroban contracts, written in Verus.

- `src/` — the library, every function verified:
  - `store` — key/value store standing for contract storage (read-after-write in its contracts);
  - `admin` — two-step admin hand-over with a 48-hour acceptance window;
  - `auto_trade` — trade request checks, trade classification and recording;
  - `fee_collector` — per-trade fee bounds and the time-locked treasury withdrawal;
  - `leaderboard` — the sorted, capped provider indexes and leaderboard queries;
  - `triggers` — stop-loss / take-profit decisions with stop-loss priority;
  - `governance` — governance error codes.
- `app/` — Soroban contract entry points: storage, authorization, events, token
  transfers and cross-contract calls around the library.
- `tests/` — tests of the library on concrete values.

The contracts' persistent storage is modelled by `store::KeyedStore`, and the
leaderboard indexes are `std` vectors: a `soroban_sdk::Vec` lives in the host
environment (it needs an `Env`) and holds only element types carrying
soroban's `contracttype` derive, which the verified library cannot use, so the
index order, uniqueness and cap it held are stated as the leaderboard's
invariant instead. `app/` converts to and from the Soroban types.
