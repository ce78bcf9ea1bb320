# nft_core

The verified core of an NFT collection contract for the Casper platform
(CEP-78 style): a collection with a fixed supply, an ownership mode that
decides who owns a minted token and whether tokens may change hands, and the
entry points `init`, `set_variables`, `mint`, `burn`, `approve`,
`set_approval_for_all`, `transfer`, `balance_of`, `owner_of`, `metadata` and
`get_approved`.

Layout:

- `src/` — the library, verified with Verus.
  - `state.rs`: the stored state (`NftState`), its model (`NftView`), `init`
    and `set_variables`.
  - `mint.rs`, `burn.rs`, `approval.rs`, `transfer.rs`, `queries.rs`: the
    other entry points, each with the exact error it stops with and the state
    it leaves.
  - `laws.rs`: the consistency of the state that every entry point keeps,
    the absence of overflow in consistent states, what reads give back after
    writes, and a transfer there and back.
  - `runs.rs`: what holds along any run of successful calls, and how long
    an approval (or its clearing by a transfer) lasts.
  - `address.rs`: the dictionary key that `mint` hands back.
  - `dict.rs`, `ids.rs`, `uint.rs`, `key.rs`, `modes.rs`, `error.rs`,
    `install.rs`, `constants.rs`: supporting types and the installing session.
- `app/` — the contract's entry points on the platform: reading runtime
  arguments and global state, calling the library, writing back or reverting.
- `tests/` — tests of the library.

Each entry point takes its runtime arguments as the outcome of reading them
(`Result<T, Revert>`), so that the library reports the same first error as
the contract, in the same order of checks.
