# tricord (verified core)

Run a command, watch its process tree, and report CPU, memory and I/O use as
a Snakemake-compatible TSV, JSON, a Markdown table and a one-line summary.

This crate holds the report logic, verified with Verus:

- `src/record.rs` — the aggregate and per-tick records, the TSV headers and
  rows in both schema modes, the Markdown table, the summary line and the
  `H:MM:SS` rendering, each with a contract over the column list and cells.
- `src/text.rs` — decimal digits, tab-joined rows, padding and the generic
  two-column Markdown layout.
- `src/format.rs`, `src/cli.rs` — output formats, the format flag and the
  verbosity-to-log-level mapping.
- `src/laws.rs` — properties across modes and formats: the full header and
  row extend the Snakemake ones, rows match their headers, an unmeasured run
  renders `NA`, and the Markdown table follows the TSV and stays aligned.
  For valid measurements (see `Quantity::valid`) the emitted text itself is
  covered: one non-empty field per column, no newline, `-` exactly for a
  missing metric, no `NA` when data was collected, a one-line summary.

Measurements are floats in the program but text in the library: a
`Quantity` holds the renderings the reports print. `app/` renders floats into
`Quantity` values, parses the command line with `clap`, serializes JSON with
`serde_json` and writes files.
