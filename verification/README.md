# event_scanner

Scanning of an Ethereum-like chain for event logs: past blocks, new blocks, the newest events, or
past blocks and then new ones, with reorgs announced and their blocks streamed again.

The rules of scanning are a library verified with Verus.  What waits and what speaks to a node is
ordinary Rust around it.

## Layout

- `src/` is the verified library.
  - `block_range_scanner/` cuts ranges into batches, remembers recent blocks, finds common
    ancestors after reorgs, and streams historical, live and rewound ranges.
  - `event_scanner/` turns ranges into logs for each listener; its `scanner/` and `modes/` hold the
    modes of scanning and their settings.
  - `event_filter.rs` says which logs a listener asks for.
  - `robust_provider.rs` decides which provider is asked next after a failure.
  - `callback/` decides when a failed callback is called again.
  - `block_scanner.rs`, `block_scanner_new.rs`, `block_channel.rs`, `builder.rs`,
    `event_scanner_ref.rs` and `event_lib/` hold the smaller services and builders.
- `app/` makes requests, keeps channels and timers, and performs what the library decides.
- `tests/` runs the library on concrete values.

## How it is verified

Work that waits for a node is a state machine: `step` takes what happened and says what to do next,
and its contract gives both exactly.  Laws over whole runs stand beside the machines as public proof
functions, such as that a range is streamed without gaps or repetitions while the chain stays calm,
and that a reorg is announced before its blocks are streamed again.

What is taken from outside without proof is small and stands in two places: the topic sets and
hashes of `event_filter.rs`, and lower case in `callback/strategy/state_sync_aware.rs`.
