# normal

The verified core of a synthetic-asset protocol: users open sub accounts, trade synthetic
assets against an AMM and each other's limit orders, and vaults mint synthetics against
collateral. Every function under `src/` states its behaviour in a Verus contract and is proved
against it.

Layout:

- `src/math/` — pricing and accounting: step and tick rounding, auctions, the order book built
  from resting orders, oracle validity and status, margin and equity, balances and positions,
  equal index weights.
- `src/state/` — the accounts (users, their statistics, vaults, markets, AMMs, index markets,
  funds, the insurance fund) and their methods, the Pyth oracle readings, and the maps of the
  accounts an instruction receives.
- `src/instructions/` — the account updates that instructions make, from plain account values to
  the new values (the runtime moves lamports and tokens).
- `tests/` — tests on concrete values.
- `app/` — glue from runtime accounts to the library's plain values, and the index weights, which
  need floating point.

Outside crates: `pyth-solana-receiver-sdk` and `pythnet-sdk` decode oracle accounts and wire
messages, `anchor-lang` provides the account deserialisation they rely on, and `num-integer`
computes integer square roots; each call stands behind a function whose contract Verus assumes
rather than proves, and which says what is assumed of the call.
