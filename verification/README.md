navactor
========

`nv` ingests streams of observations (JSON lines on stdin, or HTTP posts), hands each
one to the actor of its path, advances the actor's state with the operators of its
gene, and journals every observation and gene mapping to an sqlite file per namespace.
An actor rebuilt from its journal replays the entries in the order they were written;
where its gene accepted every journaled observation, it gets back the state it had.
That is proved as an equality of states for integer values.  For the `f64` values `nv`
keeps, Verus does not model addition, so what is proved is that each replayed entry goes
through the gene's operators: gauges take the reported value and accumulators take what
`f64` addition gives.

Layout
------

- `src/` is the library, verified with Verus.  Every public function states what it
  returns in `ensures`, over spec functions on `Seq`, `Map` and integers.
  - `operator`, `gene`, `accum_gene`, `gauge_gene`, `gauge_and_accum_gene`: gauges
    replace an index's value, accumulators add to it; a gene decides which operator
    applies to each index.  `genes` holds operators with their own error type and a
    gene that leaves the state as it was for anything but observations.
  - `actor`: the state actor's decisions, and the proof that replaying a journal gives
    the state the live actor had.
  - `registry`, `director`, `paths`: path-to-gene mappings, the nearest mapped
    ancestor of a path, which paths have a live actor, and where each message goes.
  - `store_actor_sqlite`, `nvtime`: what is journaled, how rows read back, and the
    proofs that observations and mappings come back as they were written.
  - `json_decoder`, `stdin_actor`, `api_server`, `server`, `cli`: the decisions of the
    input side, the HTTP API and the command line.
  - `text`: decimal rendering and string comparisons with their specs.
- `app/` is the `nv` program: the tokio actors, sqlite, the poem HTTP server and the
  clap command line.  It performs what the library decides.
- `tests/` runs the library on concrete values.
