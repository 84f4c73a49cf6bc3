# lupin

A small actor framework: actors take input messages and produce output
messages, and combinators (`pipe`, `chunk`, `filter`, `map`, `filter_map`,
`sum`, compression) build larger actors from smaller ones.

- `src/` is the verified library. It holds the combinator types, references
  to running actors (`ActorRef`) with how they are joined and spliced, and the
  decision each actor's task takes on one message (`ChunkBuffer::push`,
  `filter_item`, `map_item`, `filter_map_item`, `add_to_total`,
  `Zstd::compress` / `Zstd::decompress`), each with its contract. Proof
  functions state what holds across many messages: chunking cuts the items
  into consecutive full chunks and loses none, a filter sends exactly the
  items that pass, in order, filtering twice is filtering with both
  predicates, a filter-map is a filter followed by a map, a map sends one
  image per item, and a running sum sends prefix sums.
- `app/` is the asynchronous side: the `Actor` trait, the tasks that loop over
  the channels and call the library's decisions, and `send` / `recv` on a
  running actor.
- `tests/` runs the library on concrete values.
