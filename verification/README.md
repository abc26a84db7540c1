# rain_forker

A generic forked-EVM executor over [`revm`](https://crates.io/crates/revm) and
[`foundry-fork-db`](https://crates.io/crates/foundry-fork-db), verified with Verus:

- **Multi-fork RPC forking**: real chain state is fetched and cached over JSON-RPC
  (`new_with_fork`, `add_or_select`, `roll_fork`).
- **Typed calls**: `alloy_call` and `alloy_call_committing`, beside the raw `call` and
  `call_committing`.
- **Call tracing**: every call runs under a tracing inspector, and its result carries the
  `CallTraceArena`.
- **Historical transaction replay**: `replay_transaction` and `replay_block` re-execute every earlier
  transaction in a block, then the target, in its real context. A replay runs on the fork at the block
  before and starts from the state that this fork was forked with; what was committed to it before is
  dropped.

## Layout

`src/` is the verified library. It opens no connection: where a fork is made or a transaction is
looked up, each step says what to ask the network for and takes the answer.

| module | what it holds |
| --- | --- |
| `primitives` | addresses, hashes and 256-bit integers as plain values |
| `env` | chain settings, block and transaction of a call |
| `result` | exit reasons and the raw result of a call |
| `error` | what can go wrong |
| `evm` | running a transaction on revm |
| `fork` | one forked network |
| `create` | the steps of making a fork |
| `forker` | the multi-fork EVM |
| `text` | hashes and numbers written out |
| `typed` | what is to be decoded of a typed call |
| `replay` | the steps of replaying a transaction |
| `laws` | what holds of the library as a whole |

`app/` is the network side: it connects to nodes, drives the steps, and encodes and decodes typed
calls. `tests/` runs the library on networks whose state is laid out beforehand.

## What is trusted

revm, its tracing inspector, the database backend and the URL parser are called through functions
marked `external_body`; the contract of each says what is believed of it. Of the EVM that is: what a
call that is not committed, or that fails, adds to the state was loaded from the backend, and it
overwrites nothing; the answer to a call that comes to an end or is found invalid, and the changes
that committing it makes, rest on what it read and on its arguments alone; and a committing call is a read-only one with
the changes kept.

## Dependencies

The library and `app/` call alloy, foundry-fork-db, revm, revm-inspectors and url. The other lines of
`Cargo.toml` name crates that these bring along, and hold each to a version with which the whole set
compiles together and stays small. `app/` also needs alloy's `reqwest` feature, for `connect_http`,
and the crate rain-error-decoding; both are left out of `Cargo.toml` because of what they bring along,
so to build `app/` add them.
