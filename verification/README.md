# entity_cache

A Verus-verified library for reading cached game-entity data out of raw
memory bytes.

- `src/bytes.rs`: little-endian decoding of 16/32/64-bit numbers, specified
  over a mathematical `le_value`.
- `src/interface.rs`: the `FromBytes` trait and its impls (integers, UTF-8
  text with trailing zero padding, the entity table).
- `src/data.rs`: byte buffers read at offsets, the key-state bitmap, the
  character roster.
- `src/cache.rs`: the bookkeeping of cached entity pointers, and `EntityCache`,
  which records the module base and keeps one player entry per cached
  pointer as a type invariant.
- `src/input.rs`: the input system's key and button codes.
- `src/config.rs`: plain settings.
- `src/network.rs`: memory-chunk requests and the bincode framing of query
  and reply datagrams.
- `src/laws.rs`: proved properties that span these operations.
- `app/`: a small program with the floating-point types and the choices made
  on them, and serde copies of the library's types.
