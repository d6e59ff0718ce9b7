# farm_fund

The verified core of a fund program's Orca swap handler.

- `src/orca_swap.rs`: the swap as a machine of stages; each step takes the
  answer to the pending outside work and returns the next action. It builds the
  router invocation (accounts, signer seeds, instruction data).
- `src/swap_laws.rs`: what a whole run does: it ends with the handler's result
  and invokes the router only after every check passed.
- `src/swap_data.rs`: the packed `Swap` instruction and its decoding law.
- `src/native_mint.rs`, `src/keys.rs`: the native mint's constants, addresses.
- `app/lib.rs`: the runtime side that performs the actions.
