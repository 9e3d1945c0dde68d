# sim_core

The discrete core of a deterministic diesel truck engine simulator, verified
with Verus.

`src/` holds the logic that decides rather than integrates, each function with
a contract:

- `catalog` — the configuration catalog: IDs in order, one active, select by ID.
- `config` — schema version, identity, cylinder count and firing-order checks,
  and the firing positions the phase offsets are built from.
- `provenance` — the per-parameter provenance rules and classification counts.
- `error` — stable error codes and structured errors.
- `rng` — the explicitly seeded PCG-XSH-RR 64/32 generator.
- `ring` — the fixed-capacity ring buffer of produced audio samples.
- `control`, `snapshot`, `brake`, `starter`, `cylinder`, `injection` — the
  discrete decisions of the simulation: step gating and the fault latch,
  control range checks, run state, engine-brake staging, the starter relay,
  cylinder phase and injection variant.
- `text`, `analysis` — white space, trimming, decimal rendering, powers of two.

`app/` is the ordinary Rust around it: serde wire types, JSON configuration
documents, and the real-valued checks and arithmetic, which hand the library
plain values.

`tests/` exercises the library on concrete values.
