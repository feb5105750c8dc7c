# shodh_memory (verified core)

The exact, integer-and-string side of the memory engine's decay model and
query-parser selection, verified with Verus.

- `src/graph_memory.rs`: `EdgeCategory`, the coarse edge grouping.
- `src/decay.rs`: tier selection and maximum ages of the three-tier model,
  the per-edge-category decay configuration (`DecayConfig<P>`, generic over
  the curve's parameter set) with lookup that falls back to the default, and
  the retention-curve report layout.
- `src/decimal.rs`: fixed-point decimal rendering used by the report.
- `src/query_parsing/mod.rs`: parser configuration and which parser a
  configuration selects.
- `app/`: the floating-point decay curves, JSON loading of the decay
  configuration (serde), and logging around parser construction.
