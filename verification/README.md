# stellar_homes

Settlement logic for diaspora mortgages and fractional property income on
Stellar, verified with Verus.

Six contracts make up the protocol.

| Module | What it decides |
|--------|-----------------|
| `property_registry` | Which properties exist, whose titles are checked, and which construction stages are signed off |
| `lending_pool` | What investors have put in, what is committed and lent, and the yield each is owed |
| `mortgage_pool` | What was borrowed, what has been released against the build, and what is still owed |
| `offering` | The primary sale of a property's shares, escrowed until it settles or fails |
| `share_ledger` | Who holds how much of a property, and the income each holder has accrued |
| `income_distributor` | Rent in, claims out |

Each is a plain state with operations on it. No operation performs input or
output: what a contract reads arrives as arguments, and what it wants done is
appended to its `outbox`.

## Layout

- `src/` is the library, every item of it verified. Each operation states on which
  inputs it is refused, with which error, and exactly what it changes otherwise.
  The `*_laws` modules state what holds of each contract over any sequence of
  operations. `protocol` and `market` state what holds of the contracts together.
- `tests/` runs the library.
- `app/` is the contracts as deployed on Soroban: signatures, storage, token
  transfers, calls between contracts and events, around the library.

An operation whose arithmetic could leave its range asks for that in its
`requires`. Beside each stands an `*_in_range` function that decides it, which
`app/` calls first.
