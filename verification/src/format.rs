//! The on-disk output formats of the aggregate record.

use vstd::prelude::*;

verus! {

/// One of the supported on-disk output formats.
#[derive(Debug, Clone, Copy, PartialEq, Eq, Structural)]
pub enum OutputFormat {
    /// Snakemake-format TSV: a header row plus one data row.
    Tsv,
    /// Single JSON object, one line, no trailing newline.
    Json,
    /// Single JSON object, pretty-printed, with a trailing newline.
    JsonPretty,
}

/// The file extension of a format: `tsv` for TSV, `json` for both JSON forms.
pub open spec fn extension_text(format: OutputFormat) -> Seq<char> {
    match format {
        OutputFormat::Tsv => "tsv"@,
        OutputFormat::Json | OutputFormat::JsonPretty => "json"@,
    }
}

impl OutputFormat {
    /// File-extension hint for help text and downstream tooling.
    pub fn extension(self) -> (ext: &'static str)
        ensures
            ext@ == extension_text(self),
    {
        match self {
            OutputFormat::Tsv => "tsv",
            OutputFormat::Json | OutputFormat::JsonPretty => "json",
        }
    }
}


/// The TSV format's extension is `tsv`; both JSON forms share `json`, which
/// differs from it.
pub proof fn lemma_extensions()
    ensures
        extension_text(OutputFormat::Tsv) == "tsv"@,
        extension_text(OutputFormat::Json) == "json"@,
        extension_text(OutputFormat::JsonPretty) == extension_text(OutputFormat::Json),
        extension_text(OutputFormat::Tsv) != extension_text(OutputFormat::Json),
{
    reveal_strlit("tsv");
    reveal_strlit("json");
    assert("tsv"@.len() != "json"@.len());
}

} // verus!
