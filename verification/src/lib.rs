//! Reports of a benchmarked process tree: the aggregate record and the
//! per-tick trace rendered as TSV, Markdown and a one-line summary, with
//! Snakemake's `benchmark:` schema as the aggregate TSV's prefix.
//!
//! Measurements are held as the text the reports print of them
//! ([`record::Quantity`]); every layout rule is stated over that text and
//! proved.

pub mod cli;
pub mod format;
pub mod laws;
pub mod record;
pub mod text;

pub use record::SchemaMode;
