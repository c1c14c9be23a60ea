# AnchorKit

A registry, quote book and router for Stellar anchors, written in Rust and
proved with Verus.

- `src/contract/` holds the contract. Its entry points are associated functions
  of `AnchorKitContract` over a `Ledger`, which holds the clock, the signers of
  the call, all records, and the events. Each entry point states when it refuses
  a call, with which error, and what it writes otherwise.
- The other modules of `src/` stand on their own: hashing with domain
  separation, correlation contexts, alert routing, deployment drift, API
  versions, cache governance, rate limits, and the state machines of sessions
  and transactions.
- `app/` runs the contract against a Soroban host. It supplies the clock,
  authorisations, the outcome of checks on the web and the floating-point scores,
  and publishes the events.
- `tests/` exercises the library from outside.

What the library takes on trust is stated where it is used: the digests of the
Soroban host and of the `sha2` crate, the Ed25519 verification of the host, the
text of an address as the host writes it, the `Debug` form of a string, and five
string functions of `std`.
