//! The aggregate benchmark record and the per-tick trace record, with their
//! TSV, Markdown and one-line renderings.
//!
//! The aggregate TSV keeps Snakemake's `benchmark:` schema as a prefix, so
//! tools that parse Snakemake output can ingest it unchanged.

use vstd::prelude::*;
use crate::text::{
    concat_lines, count_char, decimal, lacks, decimal2, decimal2_string, decimal_string, join_tab, join_tab_strings,
    labels_of, lemma_decimal_digits, lemma_decimal_u64_len, lemma_join_tab_concat, markdown_lines, markdown_table, owned, values_of, views,
};

verus! {

/// Tab-separated aggregate header, identical to Snakemake's. Selected by
/// [`SchemaMode::SnakemakeStrict`].
pub const TSV_HEADER: &'static str = "s\th:m:s\tmax_rss\tmax_vms\tmax_uss\tmax_pss\tio_in\tio_out\tmean_load\tcpu_time";

/// Tab-separated aggregate header in full mode: [`TSV_HEADER`] plus every
/// column added on top of the Snakemake schema. Selected by
/// [`SchemaMode::Full`] (the default).
pub const TSV_HEADER_FULL: &'static str = "s\th:m:s\tmax_rss\tmax_vms\tmax_uss\tmax_pss\tio_in\tio_out\tmean_load\tcpu_time\tmajor_page_faults\tminor_page_faults\tvoluntary_ctx_switches\tinvoluntary_ctx_switches\tpeak_n_threads\tpeak_n_procs\tloadavg_1m_start\tloadavg_1m_end\tmax_swap\tpage_cache_start\tpage_cache_end";

/// Tab-separated header of the per-tick trace TSV. The trace is not affected
/// by [`SchemaMode`]: it always has every column.
pub const TRACE_TSV_HEADER: &'static str = "s\trss\tvms\tuss\tpss\tio_in\tio_out\tcpu_time\tn_procs\tmajor_page_faults\tminor_page_faults\tvoluntary_ctx_switches\tinvoluntary_ctx_switches\tn_threads\tswap";

/// Aggregate-output schema selector.
///
/// Snakemake-strict mode emits only the original ten-column schema; full mode
/// emits everything that is collected. The per-tick trace is unaffected.
#[derive(Debug, Clone, Copy, PartialEq, Eq, Structural)]
pub enum SchemaMode {
    /// Full schema: the Snakemake columns followed by the added ones.
    Full,
    /// Only the original Snakemake columns.
    SnakemakeStrict,
}

impl Default for SchemaMode {
    fn default() -> (mode: Self)
        ensures
            mode == SchemaMode::Full,
    {
        SchemaMode::Full
    }
}

/// The Snakemake columns, in order.
pub open spec fn snakemake_columns() -> Seq<Seq<char>> {
    seq![
        "s"@,
        "h:m:s"@,
        "max_rss"@,
        "max_vms"@,
        "max_uss"@,
        "max_pss"@,
        "io_in"@,
        "io_out"@,
        "mean_load"@,
        "cpu_time"@,
    ]
}

/// The columns that full mode appends after the Snakemake ones, in order.
pub open spec fn added_columns() -> Seq<Seq<char>> {
    seq![
        "major_page_faults"@,
        "minor_page_faults"@,
        "voluntary_ctx_switches"@,
        "involuntary_ctx_switches"@,
        "peak_n_threads"@,
        "peak_n_procs"@,
        "loadavg_1m_start"@,
        "loadavg_1m_end"@,
        "max_swap"@,
        "page_cache_start"@,
        "page_cache_end"@,
    ]
}

/// The aggregate columns of `mode`, in order.
pub open spec fn columns(mode: SchemaMode) -> Seq<Seq<char>> {
    match mode {
        SchemaMode::Full => snakemake_columns() + added_columns(),
        SchemaMode::SnakemakeStrict => snakemake_columns(),
    }
}

/// The per-tick trace columns, in order.
pub open spec fn trace_columns() -> Seq<Seq<char>> {
    seq![
        "s"@,
        "rss"@,
        "vms"@,
        "uss"@,
        "pss"@,
        "io_in"@,
        "io_out"@,
        "cpu_time"@,
        "n_procs"@,
        "major_page_faults"@,
        "minor_page_faults"@,
        "voluntary_ctx_switches"@,
        "involuntary_ctx_switches"@,
        "n_threads"@,
        "swap"@,
    ]
}

/// The Snakemake header lists the Snakemake columns, tab-separated.
pub proof fn lemma_snakemake_header()
    ensures
        TSV_HEADER@ == join_tab(snakemake_columns()),
{
    reveal_strlit("s\th:m:s\tmax_rss\tmax_vms\tmax_uss\tmax_pss\tio_in\tio_out\tmean_load\tcpu_time");
    reveal_strlit("s");
    reveal_strlit("h:m:s");
    reveal_strlit("max_rss");
    reveal_strlit("max_vms");
    reveal_strlit("max_uss");
    reveal_strlit("max_pss");
    reveal_strlit("io_in");
    reveal_strlit("io_out");
    reveal_strlit("mean_load");
    reveal_strlit("cpu_time");
    reveal_with_fuel(join_tab, 11);
    assert(join_tab(snakemake_columns()) =~= TSV_HEADER@);
}

/// The full header lists the full columns, tab-separated.
pub proof fn lemma_full_header()
    ensures
        TSV_HEADER_FULL@ == join_tab(columns(SchemaMode::Full)),
{
    reveal_strlit("s\th:m:s\tmax_rss\tmax_vms\tmax_uss\tmax_pss\tio_in\tio_out\tmean_load\tcpu_time\tmajor_page_faults\tminor_page_faults\tvoluntary_ctx_switches\tinvoluntary_ctx_switches\tpeak_n_threads\tpeak_n_procs\tloadavg_1m_start\tloadavg_1m_end\tmax_swap\tpage_cache_start\tpage_cache_end");
    reveal_strlit("major_page_faults");
    reveal_strlit("minor_page_faults");
    reveal_strlit("voluntary_ctx_switches");
    reveal_strlit("involuntary_ctx_switches");
    reveal_strlit("peak_n_threads");
    reveal_strlit("peak_n_procs");
    reveal_strlit("loadavg_1m_start");
    reveal_strlit("loadavg_1m_end");
    reveal_strlit("max_swap");
    reveal_strlit("page_cache_start");
    reveal_strlit("page_cache_end");
    reveal_strlit("s\th:m:s\tmax_rss\tmax_vms\tmax_uss\tmax_pss\tio_in\tio_out\tmean_load\tcpu_time");
    lemma_snakemake_header();
    reveal_with_fuel(join_tab, 11);
    assert(join_tab(snakemake_columns()) + seq!['\t'] + join_tab(added_columns()) =~= TSV_HEADER_FULL@);
    lemma_join_tab_concat(snakemake_columns(), added_columns());
    assert(join_tab(added_columns()) + seq![] =~= join_tab(added_columns()));
    assert(join_tab(columns(SchemaMode::Full)) =~= TSV_HEADER_FULL@);
}

/// The trace header lists the trace columns, tab-separated.
pub proof fn lemma_trace_header()
    ensures
        TRACE_TSV_HEADER@ == join_tab(trace_columns()),
{
    reveal_strlit("s\trss\tvms\tuss\tpss\tio_in\tio_out\tcpu_time\tn_procs\tmajor_page_faults\tminor_page_faults\tvoluntary_ctx_switches\tinvoluntary_ctx_switches\tn_threads\tswap");
    reveal_strlit("s");
    reveal_strlit("rss");
    reveal_strlit("vms");
    reveal_strlit("uss");
    reveal_strlit("pss");
    reveal_strlit("io_in");
    reveal_strlit("io_out");
    reveal_strlit("cpu_time");
    reveal_strlit("n_procs");
    reveal_strlit("major_page_faults");
    reveal_strlit("minor_page_faults");
    reveal_strlit("voluntary_ctx_switches");
    reveal_strlit("involuntary_ctx_switches");
    reveal_strlit("n_threads");
    reveal_strlit("swap");
    reveal_with_fuel(join_tab, 16);
    assert(join_tab(trace_columns()) =~= TRACE_TSV_HEADER@);
}

/// Return the aggregate header for the requested schema mode.
pub fn tsv_header(mode: SchemaMode) -> (header: &'static str)
    ensures
        header@ == join_tab(columns(mode)),
        mode == SchemaMode::SnakemakeStrict ==> header@ == TSV_HEADER@,
        mode == SchemaMode::Full ==> header@ == TSV_HEADER_FULL@,
{
    proof {
        lemma_snakemake_header();
        lemma_full_header();
    }
    match mode {
        SchemaMode::Full => TSV_HEADER_FULL,
        SchemaMode::SnakemakeStrict => TSV_HEADER,
    }
}


/// A floating-point measurement as the reports read it: its renderings with
/// a fixed number of digits after the decimal point, and its whole part.
///
/// The reports never compute with a measurement; they only print it. This
/// type holds exactly the printed forms, so that row and table layout can be
/// stated and checked over plain text.
#[derive(Debug, Clone)]
pub struct Quantity {
    /// The shortest rendering that reads back as the same value (`{}`).
    pub exact: String,
    /// Rendered with no digits after the point (`{:.0}`).
    pub fixed0: String,
    /// Rendered with one digit after the point (`{:.1}`).
    pub fixed1: String,
    /// Rendered with two digits after the point (`{:.2}`).
    pub fixed2: String,
    /// Rendered with four digits after the point (`{:.4}`).
    pub fixed4: String,
    /// The value clamped below at zero and truncated to whole units,
    /// saturating at `u64::MAX`.
    pub whole: u64,
}

/// `q` is the measurement zero.
pub open spec fn is_zero(q: Quantity) -> bool {
    &&& q.exact@ == "0"@
    &&& q.fixed0@ == "0"@
    &&& q.fixed1@ == "0.0"@
    &&& q.fixed2@ == "0.00"@
    &&& q.fixed4@ == "0.0000"@
    &&& q.whole == 0
}

/// A printable ASCII character other than the space.
pub open spec fn printable(c: char) -> bool {
    0x21 <= (c as u32) <= 0x7e
}

/// `s` is text that a rendering of a float can be: one to 400 printable
/// ASCII characters (so no space, tab or newline), and neither `-` nor `NA`,
/// which the reports keep for missing values and missing data. (No `f64`
/// needs more than 330 characters in any of the renderings.)
pub open spec fn valid_rendering(s: Seq<char>) -> bool {
    &&& 0 < s.len() <= 400
    &&& forall|i: int| 0 <= i < s.len() ==> printable(#[trigger] s[i])
    &&& s != "-"@
    &&& s != "NA"@
}

/// Whether `s` is text that a rendering of a float can be.
fn is_rendering(s: &str) -> (ok: bool)
    ensures
        ok == valid_rendering(s@),
{
    let n = s.unicode_len();
    if n == 0 || n > 400 {
        return false;
    }
    let mut i: usize = 0;
    while i < n
        invariant
            n == s@.len(),
            i <= n,
            forall|j: int| 0 <= j < i ==> printable(#[trigger] s@[j]),
        decreases n - i,
    {
        let c = s.get_char(i);
        let u = c as u32;
        if u < 0x21 || u > 0x7e {
            return false;
        }
        i = i + 1;
    }
    proof {
        reveal_strlit("-");
        reveal_strlit("NA");
    }
    if n == 1 && s.get_char(0) == '-' {
        assert(s@ =~= "-"@);
        return false;
    }
    if n == 2 && s.get_char(0) == 'N' && s.get_char(1) == 'A' {
        assert(s@ =~= "NA"@);
        return false;
    }
    if n == 1 {
        assert(s@[0] != "-"@[0]);
    }
    if n == 2 {
        assert(s@[0] != "NA"@[0] || s@[1] != "NA"@[1]);
    }
    true
}

impl Quantity {
    /// Every rendering is text that a rendering of a float can be.
    pub open spec fn valid(self) -> bool {
        &&& valid_rendering(self.exact@)
        &&& valid_rendering(self.fixed0@)
        &&& valid_rendering(self.fixed1@)
        &&& valid_rendering(self.fixed2@)
        &&& valid_rendering(self.fixed4@)
    }

    /// A measurement from its renderings and whole part, or `None` when a
    /// rendering is not text that a rendering of a float can be.
    pub fn new(
        exact: String,
        fixed0: String,
        fixed1: String,
        fixed2: String,
        fixed4: String,
        whole: u64,
    ) -> (q: Option<Quantity>)
        ensures
            q is Some <==> valid_rendering(exact@) && valid_rendering(fixed0@) && valid_rendering(
                fixed1@,
            ) && valid_rendering(fixed2@) && valid_rendering(fixed4@),
            q matches Some(v) ==> {
                &&& v.exact@ == exact@
                &&& v.fixed0@ == fixed0@
                &&& v.fixed1@ == fixed1@
                &&& v.fixed2@ == fixed2@
                &&& v.fixed4@ == fixed4@
                &&& v.whole == whole
                &&& v.valid()
            },
    {
        if is_rendering(exact.as_str()) && is_rendering(fixed0.as_str()) && is_rendering(
            fixed1.as_str(),
        ) && is_rendering(fixed2.as_str()) && is_rendering(fixed4.as_str()) {
            Some(Quantity { exact, fixed0, fixed1, fixed2, fixed4, whole })
        } else {
            None
        }
    }
}

/// An optional measurement is missing or valid.
pub open spec fn valid_optional(value: Option<Quantity>) -> bool {
    match value {
        Some(q) => q.valid(),
        None => true,
    }
}

impl Default for Quantity {
    /// The measurement zero.
    fn default() -> (q: Self)
        ensures
            is_zero(q),
            q.valid(),
    {
        proof {
            reveal_strlit("0");
            reveal_strlit("0.0");
            reveal_strlit("0.00");
            reveal_strlit("0.0000");
            reveal_strlit("-");
            reveal_strlit("NA");
            assert("0"@[0] != "-"@[0]);
            assert(valid_rendering("0"@));
            assert(valid_rendering("0.0"@));
            assert(valid_rendering("0.00"@));
            assert(valid_rendering("0.0000"@));
        }
        Quantity {
            exact: owned("0"),
            fixed0: owned("0"),
            fixed1: owned("0.0"),
            fixed2: owned("0.00"),
            fixed4: owned("0.0000"),
            whole: 0,
        }
    }
}

/// The two-decimal cell of an optional measurement: `-` when missing.
pub open spec fn optional_float_cell(value: Option<Quantity>) -> Seq<char> {
    match value {
        Some(v) => v.fixed2@,
        None => "-"@,
    }
}

/// The cell of an optional count: the bare integer, `-` when missing.
pub open spec fn optional_u64_cell(value: Option<u64>) -> Seq<char> {
    match value {
        Some(v) => decimal(v as nat),
        None => "-"@,
    }
}

/// Render an optional measurement with two decimals, `-` for `None`.
pub fn format_optional_float(value: &Option<Quantity>) -> (cell: String)
    ensures
        cell@ == optional_float_cell(*value),
        valid_optional(*value) ==> (cell@ == "-"@ <==> value is None),
{
    match value {
        Some(v) => v.fixed2.clone(),
        None => owned("-"),
    }
}

/// A count's cell is `-` exactly when the count is missing; otherwise it
/// is a non-empty run of at most twenty digits.
pub proof fn lemma_optional_u64_cell(value: Option<u64>)
    ensures
        optional_u64_cell(value) == "-"@ <==> value is None,
        value matches Some(v) ==> decimal(v as nat).len() <= 20,
{
    reveal_strlit("-");
    if let Some(v) = value {
        lemma_decimal_digits(v as nat);
        lemma_decimal_u64_len(v);
        assert(decimal(v as nat)[0] != "-"@[0]);
    }
}

/// Render an optional count as a bare integer, `-` for `None`. Used for
/// count columns where decimals would be misleading.
pub fn format_optional_u64(value: Option<u64>) -> (cell: String)
    ensures
        cell@ == optional_u64_cell(value),
        cell@ == "-"@ <==> value is None,
{
    proof {
        lemma_optional_u64_cell(value);
    }
    match value {
        Some(v) => decimal_string(v),
        None => owned("-"),
    }
}

/// Whole seconds split into days, hours, minutes and seconds.
pub open spec fn hms_parts(total: nat) -> (nat, nat, nat, nat) {
    let rem = total % 86_400;
    (total / 86_400, rem / 3600, (rem % 3600) / 60, rem % 60)
}

/// `H:MM:SS`, or `N day(s), H:MM:SS` past a day, for `total` whole seconds:
/// Python's `str(datetime.timedelta(seconds=total))`.
pub open spec fn hms_text(total: nat) -> Seq<char> {
    let (days, hh, mm, ss) = hms_parts(total);
    let body = decimal(hh) + seq![':'] + decimal2(mm) + seq![':'] + decimal2(ss);
    if days == 0 {
        body
    } else if days == 1 {
        "1 day, "@ + body
    } else {
        decimal(days) + " days, "@ + body
    }
}

/// The parts of `hms_text` denote the seconds they were made from.
pub proof fn lemma_hms_parts(total: nat)
    ensures
        ({
            let (days, hh, mm, ss) = hms_parts(total);
            &&& days * 86_400 + hh * 3600 + mm * 60 + ss == total
            &&& hh < 24
            &&& mm < 60
            &&& ss < 60
        }),
{
    let rem = total % 86_400;
    assert(total == (total / 86_400) * 86_400 + rem) by (nonlinear_arith)
        requires
            rem == total % 86_400;
    assert(rem == (rem / 3600) * 3600 + rem % 3600) by (nonlinear_arith);
    assert(rem % 3600 == ((rem % 3600) / 60) * 60 + rem % 60) by (nonlinear_arith);
    assert(rem < 86_400);
    assert(rem / 3600 < 24) by (nonlinear_arith)
        requires
            rem < 86_400;
}

/// Format `seconds` as `H:MM:SS` (or `N day(s), H:MM:SS` past 24 hours),
/// matching Python's `str(datetime.timedelta(seconds=...))` truncated to
/// whole seconds.
pub fn format_hms(seconds: &Quantity) -> (text: String)
    ensures
        text@ == hms_text(seconds.whole as nat),
{
    let total = seconds.whole;
    let days = total / 86_400;
    let rem = total % 86_400;
    let hh = rem / 3600;
    let mm = (rem % 3600) / 60;
    let ss = rem % 60;
    let mut body = decimal_string(hh);
    body.append(":");
    body.append(decimal2_string(mm).as_str());
    body.append(":");
    body.append(decimal2_string(ss).as_str());
    proof {
        reveal_strlit(":");
    }
    if days == 0 {
        body
    } else if days == 1 {
        let mut out = owned("1 day, ");
        out.append(body.as_str());
        out
    } else {
        let mut out = decimal_string(days);
        out.append(" days, ");
        out.append(body.as_str());
        out
    }
}


/// One row of benchmark output: the aggregate of all samples taken across
/// the run.
///
/// Memory values and `io_in`/`io_out` are in MiB; `running_time` and
/// `cpu_time` in seconds; `mean_load` is percent of one CPU core averaged over
/// the run (100 = one core fully used). Optional fields are `None` when the
/// platform does not expose the metric.
#[derive(Debug, Clone)]
pub struct BenchmarkRecord {
    /// Wall-clock running time in seconds.
    pub running_time: Quantity,
    /// Peak resident set size, summed across the process tree, in MiB.
    pub max_rss: Option<Quantity>,
    /// Peak virtual memory size, summed across the process tree, in MiB.
    pub max_vms: Option<Quantity>,
    /// Peak unique set size, summed across the process tree, in MiB.
    pub max_uss: Option<Quantity>,
    /// Peak proportional set size, summed across the process tree, in MiB.
    pub max_pss: Option<Quantity>,
    /// Cumulative bytes read from disk by the process tree, in MiB.
    pub io_in: Option<Quantity>,
    /// Cumulative bytes written to disk by the process tree, in MiB.
    pub io_out: Option<Quantity>,
    /// Average CPU load over the run, as percent of one core.
    pub mean_load: Quantity,
    /// Cumulative user + system CPU time across the process tree, in seconds.
    pub cpu_time: Quantity,
    /// Total major page faults across the process tree (summed per-PID maxima).
    pub major_page_faults: Option<u64>,
    /// Total minor page faults across the process tree.
    pub minor_page_faults: Option<u64>,
    /// Total voluntary context switches across the process tree.
    pub voluntary_ctx_switches: Option<u64>,
    /// Total involuntary context switches across the process tree.
    pub involuntary_ctx_switches: Option<u64>,
    /// Peak instantaneous thread count across the tree.
    pub peak_n_threads: Option<u64>,
    /// Peak instantaneous live-process count across the tree.
    pub peak_n_procs: u64,
    /// System 1-minute load average sampled just before the child started.
    pub loadavg_1m_start: Option<Quantity>,
    /// System 1-minute load average sampled just after the child exited.
    pub loadavg_1m_end: Option<Quantity>,
    /// Peak summed swap usage across the process tree, in MiB.
    pub max_swap: Option<Quantity>,
    /// System page-cache size sampled just before the child started, in MiB.
    pub page_cache_start: Option<Quantity>,
    /// System page-cache size sampled just after the child exited, in MiB.
    pub page_cache_end: Option<Quantity>,
    /// Whether at least one sample successfully read OS resource counters.
    /// When `false` every resource column renders as `NA`.
    pub data_collected: bool,
}

/// `n` cells reading `NA`.
pub open spec fn na_cells(n: nat) -> Seq<Seq<char>> {
    Seq::new(n, |i: int| "NA"@)
}

/// How many resource columns (all but `s` and `h:m:s`) `mode` has.
pub open spec fn resource_column_count(mode: SchemaMode) -> nat {
    match mode {
        SchemaMode::Full => 19,
        SchemaMode::SnakemakeStrict => 8,
    }
}

impl BenchmarkRecord {
    /// The `s` and `h:m:s` cells.
    pub open spec fn time_cells(self) -> Seq<Seq<char>> {
        seq![self.running_time.fixed4@, hms_text(self.running_time.whole as nat)]
    }

    /// The Snakemake resource cells of a record with data.
    pub open spec fn snakemake_cells(self) -> Seq<Seq<char>> {
        seq![
            optional_float_cell(self.max_rss),
            optional_float_cell(self.max_vms),
            optional_float_cell(self.max_uss),
            optional_float_cell(self.max_pss),
            optional_float_cell(self.io_in),
            optional_float_cell(self.io_out),
            self.mean_load.fixed2@,
            self.cpu_time.fixed2@,
        ]
    }

    /// The cells of the added columns of a record with data.
    pub open spec fn added_cells(self) -> Seq<Seq<char>> {
        seq![
            optional_u64_cell(self.major_page_faults),
            optional_u64_cell(self.minor_page_faults),
            optional_u64_cell(self.voluntary_ctx_switches),
            optional_u64_cell(self.involuntary_ctx_switches),
            optional_u64_cell(self.peak_n_threads),
            decimal(self.peak_n_procs as nat),
            optional_float_cell(self.loadavg_1m_start),
            optional_float_cell(self.loadavg_1m_end),
            optional_float_cell(self.max_swap),
            optional_float_cell(self.page_cache_start),
            optional_float_cell(self.page_cache_end),
        ]
    }

    /// Every measurement of the record is valid.
    pub open spec fn valid(self) -> bool {
        &&& self.running_time.valid()
        &&& self.mean_load.valid()
        &&& self.cpu_time.valid()
        &&& valid_optional(self.max_rss)
        &&& valid_optional(self.max_vms)
        &&& valid_optional(self.max_uss)
        &&& valid_optional(self.max_pss)
        &&& valid_optional(self.io_in)
        &&& valid_optional(self.io_out)
        &&& valid_optional(self.loadavg_1m_start)
        &&& valid_optional(self.loadavg_1m_end)
        &&& valid_optional(self.max_swap)
        &&& valid_optional(self.page_cache_start)
        &&& valid_optional(self.page_cache_end)
    }

    /// For each resource column, in order, whether its metric is missing.
    pub open spec fn missing_flags(self) -> Seq<bool> {
        seq![
            self.max_rss is None,
            self.max_vms is None,
            self.max_uss is None,
            self.max_pss is None,
            self.io_in is None,
            self.io_out is None,
            false,
            false,
            self.major_page_faults is None,
            self.minor_page_faults is None,
            self.voluntary_ctx_switches is None,
            self.involuntary_ctx_switches is None,
            self.peak_n_threads is None,
            false,
            self.loadavg_1m_start is None,
            self.loadavg_1m_end is None,
            self.max_swap is None,
            self.page_cache_start is None,
            self.page_cache_end is None,
        ]
    }

    /// The cells of this record's row in `mode`, one per column.
    pub open spec fn cells(self, mode: SchemaMode) -> Seq<Seq<char>> {
        if !self.data_collected {
            self.time_cells() + na_cells(resource_column_count(mode))
        } else {
            match mode {
                SchemaMode::Full => self.time_cells() + self.snakemake_cells() + self.added_cells(),
                SchemaMode::SnakemakeStrict => self.time_cells() + self.snakemake_cells(),
            }
        }
    }

    /// The cells of this record's row in `mode`.
    fn tsv_cells(&self, mode: SchemaMode) -> (cells: Vec<String>)
        ensures
            views(cells@) == self.cells(mode),
    {
        let mut cells: Vec<String> = Vec::new();
        cells.push(self.running_time.fixed4.clone());
        cells.push(format_hms(&self.running_time));
        let extra_cols: usize = match mode {
            SchemaMode::Full => 11,
            SchemaMode::SnakemakeStrict => 0,
        };
        if !self.data_collected {
            let mut i: usize = 0;
            while i < 8 + extra_cols
                invariant
                    i <= 8 + extra_cols,
                    extra_cols == resource_column_count(mode) - 8,
                    views(cells@) == self.time_cells() + na_cells(i as nat),
                decreases 8 + extra_cols - i,
            {
                let ghost prev = views(cells@);
                let na = owned("NA");
                cells.push(na);
                assert(views(cells@) =~= prev.push("NA"@));
                i = i + 1;
                assert(views(cells@) =~= self.time_cells() + na_cells(i as nat));
            }
            return cells;
        }
        cells.push(format_optional_float(&self.max_rss));
        cells.push(format_optional_float(&self.max_vms));
        cells.push(format_optional_float(&self.max_uss));
        cells.push(format_optional_float(&self.max_pss));
        cells.push(format_optional_float(&self.io_in));
        cells.push(format_optional_float(&self.io_out));
        cells.push(self.mean_load.fixed2.clone());
        cells.push(self.cpu_time.fixed2.clone());
        if mode == SchemaMode::Full {
            cells.push(format_optional_u64(self.major_page_faults));
            cells.push(format_optional_u64(self.minor_page_faults));
            cells.push(format_optional_u64(self.voluntary_ctx_switches));
            cells.push(format_optional_u64(self.involuntary_ctx_switches));
            cells.push(format_optional_u64(self.peak_n_threads));
            cells.push(decimal_string(self.peak_n_procs));
            cells.push(format_optional_float(&self.loadavg_1m_start));
            cells.push(format_optional_float(&self.loadavg_1m_end));
            cells.push(format_optional_float(&self.max_swap));
            cells.push(format_optional_float(&self.page_cache_start));
            cells.push(format_optional_float(&self.page_cache_end));
        }
        assert(views(cells@) =~= self.cells(mode));
        cells
    }

    /// Render this record as a single TSV row.
    ///
    /// Snakemake's column order and value formatting (four decimals for `s`,
    /// two for measurements, `-` for missing values, `NA` across all resource
    /// columns when no data was collected) apply in both modes. In full mode
    /// the added columns follow on the right; counts render as bare integers.
    pub fn to_tsv_row(&self, mode: SchemaMode) -> (row: String)
        ensures
            row@ == join_tab(self.cells(mode)),
            self.valid() ==> count_char(row@, '\t') + 1 == columns(mode).len() && lacks(
                row@,
                '\n',
            ),
    {
        proof {
            if self.valid() {
                crate::laws::lemma_row_text(*self, mode);
            }
        }
        let cells = self.tsv_cells(mode);
        join_tab_strings(&cells)
    }

    /// Render this record as a complete TSV document: the header of `mode`,
    /// a newline, the data row and a trailing newline.
    pub fn to_tsv_document(&self, mode: SchemaMode) -> (doc: String)
        ensures
            doc@ == join_tab(columns(mode)) + seq!['\n'] + join_tab(self.cells(mode)) + seq!['\n'],
    {
        let mut out = owned(tsv_header(mode));
        out.append("\n");
        out.append(self.to_tsv_row(mode).as_str());
        out.append("\n");
        proof {
            reveal_strlit("\n");
        }
        out
    }
}


impl BenchmarkRecord {
    /// A measured optional cell: as in the TSV when data was collected,
    /// `NA` otherwise.
    fn gated_float(&self, value: &Option<Quantity>) -> (cell: String)
        ensures
            cell@ == (if self.data_collected { optional_float_cell(*value) } else { "NA"@ }),
    {
        if self.data_collected {
            format_optional_float(value)
        } else {
            owned("NA")
        }
    }

    /// A measured scalar cell: two decimals when data was collected, `NA`
    /// otherwise.
    fn gated_scalar(&self, value: &Quantity) -> (cell: String)
        ensures
            cell@ == (if self.data_collected { value.fixed2@ } else { "NA"@ }),
    {
        if self.data_collected {
            value.fixed2.clone()
        } else {
            owned("NA")
        }
    }

    /// A measured count cell: as in the TSV when data was collected, `NA`
    /// otherwise.
    fn gated_count(&self, value: Option<u64>) -> (cell: String)
        ensures
            cell@ == (if self.data_collected { optional_u64_cell(value) } else { "NA"@ }),
    {
        if self.data_collected {
            format_optional_u64(value)
        } else {
            owned("NA")
        }
    }

    /// The ordered `(metric, value)` pairs of the Markdown table: the columns
    /// of `mode` paired with this record's TSV cells.
    fn markdown_rows(&self, mode: SchemaMode) -> (rows: Vec<(&'static str, String)>)
        ensures
            labels_of(rows@) == columns(mode),
            values_of(rows@) == self.cells(mode),
    {
        let mut rows: Vec<(&'static str, String)> = Vec::new();
        rows.push(("s", self.running_time.fixed4.clone()));
        rows.push(("h:m:s", format_hms(&self.running_time)));
        rows.push(("max_rss", self.gated_float(&self.max_rss)));
        rows.push(("max_vms", self.gated_float(&self.max_vms)));
        rows.push(("max_uss", self.gated_float(&self.max_uss)));
        rows.push(("max_pss", self.gated_float(&self.max_pss)));
        rows.push(("io_in", self.gated_float(&self.io_in)));
        rows.push(("io_out", self.gated_float(&self.io_out)));
        rows.push(("mean_load", self.gated_scalar(&self.mean_load)));
        rows.push(("cpu_time", self.gated_scalar(&self.cpu_time)));
        if mode == SchemaMode::Full {
            rows.push(("major_page_faults", self.gated_count(self.major_page_faults)));
            rows.push(("minor_page_faults", self.gated_count(self.minor_page_faults)));
            rows.push(("voluntary_ctx_switches", self.gated_count(self.voluntary_ctx_switches)));
            rows.push(("involuntary_ctx_switches", self.gated_count(self.involuntary_ctx_switches)));
            rows.push(("peak_n_threads", self.gated_count(self.peak_n_threads)));
            let procs = if self.data_collected {
                decimal_string(self.peak_n_procs)
            } else {
                owned("NA")
            };
            rows.push(("peak_n_procs", procs));
            rows.push(("loadavg_1m_start", self.gated_float(&self.loadavg_1m_start)));
            rows.push(("loadavg_1m_end", self.gated_float(&self.loadavg_1m_end)));
            rows.push(("max_swap", self.gated_float(&self.max_swap)));
            rows.push(("page_cache_start", self.gated_float(&self.page_cache_start)));
            rows.push(("page_cache_end", self.gated_float(&self.page_cache_end)));
        }
        assert(labels_of(rows@) =~= columns(mode));
        assert(values_of(rows@) =~= self.cells(mode));
        rows
    }

    /// Render this record as a Markdown table with two columns,
    /// `metric | value`.
    ///
    /// The rows are the columns of `mode` in TSV order, each with the same
    /// cell as in the TSV row. Column widths fit the longest cell.
    pub fn to_markdown_document(&self, mode: SchemaMode) -> (doc: String)
        ensures
            doc@ == concat_lines(markdown_lines(columns(mode), self.cells(mode))),
    {
        let rows = self.markdown_rows(mode);
        markdown_table(&rows)
    }
}


/// An optional size in the summary: one decimal and `MiB`, `-` when missing.
pub open spec fn mib_text(value: Option<Quantity>) -> Seq<char> {
    match value {
        Some(v) => v.fixed1@ + "MiB"@,
        None => "-"@,
    }
}

/// Render an optional size for the summary line.
fn format_mib(value: &Option<Quantity>) -> (text: String)
    ensures
        text@ == mib_text(*value),
{
    match value {
        Some(v) => {
            let mut t = v.fixed1.clone();
            t.append("MiB");
            t
        },
        None => owned("-"),
    }
}

impl BenchmarkRecord {
    /// The one-line summary of this record.
    pub open spec fn summary_text(self) -> Seq<char> {
        "wall="@ + self.running_time.fixed2@ + "s cpu="@ + self.cpu_time.fixed2@ + "s mean_load="@
            + self.mean_load.fixed0@ + "% max_rss="@ + mib_text(self.max_rss) + " max_uss="@
            + mib_text(self.max_uss) + " io_in="@ + mib_text(self.io_in) + " io_out="@ + mib_text(
            self.io_out,
        )
    }

    /// Pretty one-line summary suitable for printing to stderr after a run.
    pub fn summary_line(&self) -> (line: String)
        ensures
            line@ == self.summary_text(),
            self.valid() ==> lacks(line@, '\n'),
    {
        proof {
            if self.valid() {
                crate::laws::lemma_summary_is_one_line(*self);
            }
        }
        let mut out = owned("wall=");
        out.append(self.running_time.fixed2.as_str());
        out.append("s cpu=");
        out.append(self.cpu_time.fixed2.as_str());
        out.append("s mean_load=");
        out.append(self.mean_load.fixed0.as_str());
        out.append("% max_rss=");
        out.append(format_mib(&self.max_rss).as_str());
        out.append(" max_uss=");
        out.append(format_mib(&self.max_uss).as_str());
        out.append(" io_in=");
        out.append(format_mib(&self.io_in).as_str());
        out.append(" io_out=");
        out.append(format_mib(&self.io_out).as_str());
        out
    }
}

impl Default for BenchmarkRecord {
    /// A record with zero times and loads, every optional metric missing, no
    /// processes, and no data collected.
    fn default() -> (r: Self)
        ensures
            r.valid(),
            is_zero(r.running_time),
            is_zero(r.mean_load),
            is_zero(r.cpu_time),
            r.max_rss is None,
            r.max_vms is None,
            r.max_uss is None,
            r.max_pss is None,
            r.io_in is None,
            r.io_out is None,
            r.major_page_faults is None,
            r.minor_page_faults is None,
            r.voluntary_ctx_switches is None,
            r.involuntary_ctx_switches is None,
            r.peak_n_threads is None,
            r.peak_n_procs == 0,
            r.loadavg_1m_start is None,
            r.loadavg_1m_end is None,
            r.max_swap is None,
            r.page_cache_start is None,
            r.page_cache_end is None,
            !r.data_collected,
    {
        BenchmarkRecord {
            running_time: Quantity::default(),
            max_rss: None,
            max_vms: None,
            max_uss: None,
            max_pss: None,
            io_in: None,
            io_out: None,
            mean_load: Quantity::default(),
            cpu_time: Quantity::default(),
            major_page_faults: None,
            minor_page_faults: None,
            voluntary_ctx_switches: None,
            involuntary_ctx_switches: None,
            peak_n_threads: None,
            peak_n_procs: 0,
            loadavg_1m_start: None,
            loadavg_1m_end: None,
            max_swap: None,
            page_cache_start: None,
            page_cache_end: None,
            data_collected: false,
        }
    }
}

/// One per-tick row of the trace TSV.
///
/// Memory fields (`rss`, `vms`, `uss`, `pss`, `swap`) are summed across the
/// processes live at that tick, in MiB. I/O and CPU fields are running
/// per-PID totals summed across every PID observed so far. Page-fault and
/// context-switch counts are the deltas of this tick.
#[derive(Debug, Clone)]
pub struct TickRecord {
    /// Seconds since the sampler started.
    pub elapsed: Quantity,
    /// Summed RSS across live processes, MiB.
    pub rss: Quantity,
    /// Summed VMS across live processes, MiB.
    pub vms: Quantity,
    /// Summed USS across live processes, MiB. `None` if no process exposed it.
    pub uss: Option<Quantity>,
    /// Summed PSS across live processes, MiB. `None` if no process exposed it.
    pub pss: Option<Quantity>,
    /// Cumulative bytes read across observed PIDs, MiB. `None` if never seen.
    pub io_in: Option<Quantity>,
    /// Cumulative bytes written across observed PIDs, MiB. `None` if never seen.
    pub io_out: Option<Quantity>,
    /// Cumulative user + system CPU time across observed PIDs, seconds.
    pub cpu_time: Quantity,
    /// Number of live processes in this tick.
    pub n_procs: usize,
    /// Major page faults during this tick, summed across observed PIDs.
    pub major_page_faults: Option<u64>,
    /// Minor page faults during this tick, summed across observed PIDs.
    pub minor_page_faults: Option<u64>,
    /// Voluntary context switches during this tick.
    pub voluntary_ctx_switches: Option<u64>,
    /// Involuntary context switches during this tick.
    pub involuntary_ctx_switches: Option<u64>,
    /// Threads live across the tree at this tick.
    pub n_threads: Option<u64>,
    /// Summed swap usage across the live tree at this tick, MiB.
    pub swap: Option<Quantity>,
}

impl TickRecord {
    /// Every measurement of the tick is valid.
    pub open spec fn valid(self) -> bool {
        &&& self.elapsed.valid()
        &&& self.rss.valid()
        &&& self.vms.valid()
        &&& self.cpu_time.valid()
        &&& valid_optional(self.uss)
        &&& valid_optional(self.pss)
        &&& valid_optional(self.io_in)
        &&& valid_optional(self.io_out)
        &&& valid_optional(self.swap)
    }

    /// The cells of this tick's trace row, one per trace column.
    pub open spec fn cells(self) -> Seq<Seq<char>> {
        seq![
            self.elapsed.fixed4@,
            self.rss.fixed2@,
            self.vms.fixed2@,
            optional_float_cell(self.uss),
            optional_float_cell(self.pss),
            optional_float_cell(self.io_in),
            optional_float_cell(self.io_out),
            self.cpu_time.fixed2@,
            decimal(self.n_procs as nat),
            optional_u64_cell(self.major_page_faults),
            optional_u64_cell(self.minor_page_faults),
            optional_u64_cell(self.voluntary_ctx_switches),
            optional_u64_cell(self.involuntary_ctx_switches),
            optional_u64_cell(self.n_threads),
            optional_float_cell(self.swap),
        ]
    }

    /// Render this tick as a single TSV row: four decimals for the elapsed
    /// time, two for measurements, `-` for missing values, bare integers for
    /// counts.
    pub fn to_tsv_row(&self) -> (row: String)
        ensures
            row@ == join_tab(self.cells()),
            self.valid() ==> count_char(row@, '\t') + 1 == trace_columns().len() && lacks(
                row@,
                '\n',
            ),
    {
        proof {
            if self.valid() {
                crate::laws::lemma_trace_row_text(*self);
            }
        }
        let mut cells: Vec<String> = Vec::new();
        cells.push(self.elapsed.fixed4.clone());
        cells.push(self.rss.fixed2.clone());
        cells.push(self.vms.fixed2.clone());
        cells.push(format_optional_float(&self.uss));
        cells.push(format_optional_float(&self.pss));
        cells.push(format_optional_float(&self.io_in));
        cells.push(format_optional_float(&self.io_out));
        cells.push(self.cpu_time.fixed2.clone());
        cells.push(decimal_string(self.n_procs as u64));
        cells.push(format_optional_u64(self.major_page_faults));
        cells.push(format_optional_u64(self.minor_page_faults));
        cells.push(format_optional_u64(self.voluntary_ctx_switches));
        cells.push(format_optional_u64(self.involuntary_ctx_switches));
        cells.push(format_optional_u64(self.n_threads));
        cells.push(format_optional_float(&self.swap));
        assert(views(cells@) =~= self.cells());
        join_tab_strings(&cells)
    }
}

impl Default for TickRecord {
    /// A tick with zero measurements, no processes and every optional
    /// metric missing.
    fn default() -> (t: Self)
        ensures
            t.valid(),
            is_zero(t.elapsed),
            is_zero(t.rss),
            is_zero(t.vms),
            is_zero(t.cpu_time),
            t.uss is None,
            t.pss is None,
            t.io_in is None,
            t.io_out is None,
            t.n_procs == 0,
            t.major_page_faults is None,
            t.minor_page_faults is None,
            t.voluntary_ctx_switches is None,
            t.involuntary_ctx_switches is None,
            t.n_threads is None,
            t.swap is None,
    {
        TickRecord {
            elapsed: Quantity::default(),
            rss: Quantity::default(),
            vms: Quantity::default(),
            uss: None,
            pss: None,
            io_in: None,
            io_out: None,
            cpu_time: Quantity::default(),
            n_procs: 0,
            major_page_faults: None,
            minor_page_faults: None,
            voluntary_ctx_switches: None,
            involuntary_ctx_switches: None,
            n_threads: None,
            swap: None,
        }
    }
}

} // verus!
