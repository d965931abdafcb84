//! The command-line choices that the library itself interprets: the output
//! format flag and the verbosity count.

use vstd::prelude::*;
use vstd::std_specs::convert::FromSpecImpl;
use crate::format::OutputFormat;

verus! {

/// Output-format flag variants. Mirrors [`OutputFormat`] but exists
/// separately so that the command-line parser's needs do not impose
/// themselves on the library type.
#[derive(Debug, Clone, Copy, PartialEq, Eq, Structural)]
pub enum Format {
    /// Snakemake-format TSV (default).
    Tsv,
    /// Single JSON object on one line.
    Json,
    /// Single JSON object, pretty-printed across multiple lines.
    JsonPretty,
}

/// The output format that a format flag selects.
pub open spec fn output_format_of(value: Format) -> OutputFormat {
    match value {
        Format::Tsv => OutputFormat::Tsv,
        Format::Json => OutputFormat::Json,
        Format::JsonPretty => OutputFormat::JsonPretty,
    }
}

impl From<Format> for OutputFormat {
    fn from(value: Format) -> (format: Self) {
        match value {
            Format::Tsv => OutputFormat::Tsv,
            Format::Json => OutputFormat::Json,
            Format::JsonPretty => OutputFormat::JsonPretty,
        }
    }
}

impl FromSpecImpl<Format> for OutputFormat {
    open spec fn obeys_from_spec() -> bool {
        true
    }

    open spec fn from_spec(value: Format) -> OutputFormat {
        output_format_of(value)
    }
}

/// A logging threshold, from silent to most verbose.
#[derive(Debug, Clone, Copy, PartialEq, Eq, Structural)]
pub enum LogLevel {
    /// No logging.
    Off,
    /// Errors only.
    Error,
    /// Warnings and errors.
    Warn,
    /// Informational messages and above.
    Info,
    /// Debugging messages and above.
    Debug,
    /// Everything.
    Trace,
}

/// The log level of `verbose` repetitions of `-v`: warn for none, info for
/// one, debug for two, trace for three or more.
pub open spec fn level_for(verbose: u8) -> LogLevel {
    if verbose == 0 {
        LogLevel::Warn
    } else if verbose == 1 {
        LogLevel::Info
    } else if verbose == 2 {
        LogLevel::Debug
    } else {
        LogLevel::Trace
    }
}

/// Map the `-v` count to a log level: each `-v` raises it one step, from
/// warn through info and debug to trace.
pub fn log_level(verbose: u8) -> (level: LogLevel)
    ensures
        level == level_for(verbose),
{
    match verbose {
        0 => LogLevel::Warn,
        1 => LogLevel::Info,
        2 => LogLevel::Debug,
        _ => LogLevel::Trace,
    }
}


/// How verbose a level is: 0 for off up to 5 for trace.
pub open spec fn verbosity_rank(level: LogLevel) -> nat {
    match level {
        LogLevel::Off => 0,
        LogLevel::Error => 1,
        LogLevel::Warn => 2,
        LogLevel::Info => 3,
        LogLevel::Debug => 4,
        LogLevel::Trace => 5,
    }
}

/// No `-v` gives warnings; each `-v` raises the level one step until trace;
/// three or more give trace; so more `-v` never gives a quieter level.
pub proof fn lemma_log_level_steps(v: u8, w: u8)
    ensures
        level_for(0) == LogLevel::Warn,
        verbosity_rank(level_for(v)) == if v >= 3 {
            5
        } else {
            2 + v
        },
        v >= 3 ==> level_for(v) == LogLevel::Trace,
        v <= w ==> verbosity_rank(level_for(v)) <= verbosity_rank(level_for(w)),
{
}

/// Distinct format flags select distinct output formats, each the one of
/// the same name.
pub proof fn lemma_format_flag_selects_its_format(a: Format, b: Format)
    ensures
        output_format_of(Format::Tsv) == OutputFormat::Tsv,
        output_format_of(Format::Json) == OutputFormat::Json,
        output_format_of(Format::JsonPretty) == OutputFormat::JsonPretty,
        output_format_of(a) == output_format_of(b) ==> a == b,
{
}

} // verus!
