# uniswap_lens

A verified core for reading concentrated-liquidity pools (Uniswap V3/V4,
PancakeSwap V3, SlipStream, Algebra) through ephemeral lens contracts.

- `src/amm.rs`: the `Dex` identifiers and their one-byte encoding, with the
  round-trip laws between `u8::from` and `Dex::try_from`.
- `src/pool_lens.rs`: the planning of each lens call (which lens contract, with
  which constructor arguments, and whether the DEX's storage layout is known),
  and the selection of the populated ticks inside a requested range, with its
  laws (soundness, completeness, order, idempotence).
- `app/`: the asynchronous functions that send the planned calls through an
  alloy provider and convert between alloy's types and the library's.
