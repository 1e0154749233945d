# tipjar

A verified model of a family of tip-jar smart contracts: creators receive
tips in allowed tokens, withdraw them (themselves, through a payout address or
through operators with an allowance), pay an optional protocol fee, and can be
paused by an admin or a guardian; around that core sit satellite contracts
(batching, royalties, lotteries, rentals, lending, recovery, order books,
market making and more) and a storage-rent estimator.

Every function in `src/` is checked by Verus against its `requires` /
`ensures` contract.

## Layout

- `src/` — the library, one module per contract or tool:
  - `tipjar` — the main jar: tips, withdrawals, fees, payouts, operators,
    admin transfer, timelocked upgrades, circuit breaker; `tipjar_v2` is the
    second code version an upgrade installs.
  - `aggregation`, `royalty`, `lottery`, `rental`, `access_lists`,
    `market_making`, `stop_loss`, `portfolio`, `derivatives`, `arbitrage`,
    `limit_orders`, `risk`, `lending` (with `interest`), `recovery`,
    `adversarial_token`, `events` — the satellite contracts.
  - `rent_model` — the storage-rent simulation behind the estimator.
  - `table`, `common`, `num` — keyed storage, shared records and integer
    helpers.
- `tests/` — scenario tests of the library.
- `app/` — the storage-rent analysis command line tool: argument parsing, float
  conversions, the wording of the recommendations and JSON output around
  `rent_model`.

## Conventions

Addresses, tokens and symbols are `u64` ids. The contracts' persistent and
instance storage, and the `Map` and `Vec` of the Soroban SDK, exist only
inside a host environment (`Env`) that the library neither has nor calls;
each contract's storage is held instead in `Table` (a `u128`-keyed map over
std's `HashMap`, whose behaviour vstd specifies) and std `Vec`, and the
host-side work — storage, authorisation, token transfers, publishing —
stays with the caller. No outside crate is used by `src/`; `app/` uses
`clap`, `serde`, `serde_json`, `chrono` and `anyhow`. Time (ledger sequence or
timestamp) is an argument of the calls that read it. A refused call returns an
error and leaves the state as it was; the token transfers a successful call
asks for are returned to the caller, which hands them to the host. The main jar
returns the events of a call with its transfers (`events` builds its tip,
withdraw and fee records); the satellite contracts that publish keep their
events, oldest first, in an `events` log, and each call's contract states which
entries it appends.
