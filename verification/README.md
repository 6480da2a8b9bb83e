# dbt information schema, verified

A library for the dbt information schema and the metadata index beneath it,
written in Verus. The verifier proves the contracts of the functions in
`src/`; the calls into `serde_json` that they make stand behind
small wrappers whose contracts are trusted, not proved, and say so.

- `spec`, `schema`, `index`: the declarative table specifications and the
  index tables they read from.
- `project`, `assemble`, `project_meta`, `catalog`: how source rows become
  information-schema rows (column plans, filters, joins, `dag_nodes`,
  `project_vars`, the project record and its vars, env-vars and package
  rows, warehouse catalog statistics).
- `views`, `parse_safe`, `epoch`, `epoch_views`, `copy`: the SQL that exposes
  the tables, over the parquet snapshot or straight over the epoch files;
  `epoch_coverage` proves, table by table, that the epoch mapping covers
  every column the information schema reads.
- `ingest_state`, `ingest`, `parse_nodes`: what the incremental ingest
  decides — which epochs to read, which rows survive, which edges survive a
  delta, when the index is current, what is persisted between runs — and the
  node, edge and test-metadata rows one batch of parsed nodes makes.
- `json_field`, `json_value`: top-level field extraction from payload JSON
  text, the JSON reads done with `serde_json`, and the trimmed model payload.
- `timings`: stage attribution for the conversion.
- `trace`, `listener`, `parse_check`, `node_context`: what the Jinja layer
  records and decides (macro call traces, macro dependencies, the
  parse-time `info_schema()` helper, `this` and hooks).

`app/` holds the I/O around it: reading the metadata directory, the state
file, the generated SQL files and process-wide timings.
