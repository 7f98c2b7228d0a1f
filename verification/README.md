# eth_block_executor

The rules of Ethereum block execution as a verified library, for a chain that adds a bridge and a
staking contract to the usual system calls.

- `src/` holds the rules. `block` decides what precedes the transactions, whether a transaction fits
  into its block and what it is charged. `finish` decides which calls finish a block, with which
  arguments and in which order. `laws` proves what holds of whole blocks.
- `app/` runs the rules over a `revm` state. It makes the calls that the rules ask for and hands
  their results back.
- `tests/` runs the rules on concrete blocks, with the `alloy` crates linked.
