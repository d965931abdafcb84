//! Properties that hold across the report formatters: how the two schema
//! modes relate, how rows line up with headers, and how the Markdown table
//! is laid out.

use vstd::prelude::*;
use crate::record::{
    added_columns, columns, hms_parts, hms_text, lemma_full_header, lemma_optional_u64_cell,
    lemma_snakemake_header, mib_text, optional_float_cell, optional_u64_cell, printable,
    snakemake_columns, trace_columns, valid_optional, valid_rendering, BenchmarkRecord, Quantity,
    SchemaMode, TickRecord, TSV_HEADER, TSV_HEADER_FULL,
};
use vstd::arithmetic::div_mod::{
    lemma_fundamental_div_mod, lemma_fundamental_div_mod_converse, lemma_mod_pos_bound,
};
use crate::text::{
    byte_len, count_char, decimal, decimal2, digit_char, lemma_decimal2_two_digits, is_ascii_text, is_field, join_tab, lacks,
    lemma_ascii_bytes, lemma_ascii_concat, lemma_chars_le_bytes, lemma_decimal_digits,
    lemma_decimal_u64_len, lemma_join_tab_concat, lemma_join_tab_fields, lemma_lacks_concat,
    markdown_lines, max_byte_len, pad_left, pad_right, repeated, rule_line, table_line,
};

verus! {

/// The full header is the Snakemake header, a tab, and the added columns:
/// the Snakemake prefix is never reordered.
pub proof fn lemma_full_header_extends_snakemake()
    ensures
        TSV_HEADER_FULL@ == TSV_HEADER@ + seq!['\t'] + join_tab(added_columns()),
        columns(SchemaMode::Full).take(10) == columns(SchemaMode::SnakemakeStrict),
{
    lemma_full_header();
    lemma_snakemake_header();
    lemma_join_tab_concat(snakemake_columns(), added_columns());
    assert(columns(SchemaMode::Full).take(10) =~= columns(SchemaMode::SnakemakeStrict));
}

/// Every aggregate row has exactly one cell per header column, in both
/// modes, whether or not data was collected.
pub proof fn lemma_row_matches_header(r: BenchmarkRecord, mode: SchemaMode)
    ensures
        r.cells(mode).len() == columns(mode).len(),
{
}

/// Every trace row has exactly one cell per trace column.
pub proof fn lemma_tick_row_matches_trace_header(t: TickRecord)
    ensures
        t.cells().len() == trace_columns().len(),
{
}

/// The strict row is the first ten cells of the full row: the Snakemake
/// columns have the same values and formatting in both modes, and the full
/// row is the strict row, a tab, and the added cells.
pub proof fn lemma_strict_row_is_prefix_of_full(r: BenchmarkRecord)
    ensures
        r.cells(SchemaMode::Full).take(10) == r.cells(SchemaMode::SnakemakeStrict),
        join_tab(r.cells(SchemaMode::Full)) == join_tab(r.cells(SchemaMode::SnakemakeStrict))
            + seq!['\t'] + join_tab(r.cells(SchemaMode::Full).skip(10)),
{
    let full = r.cells(SchemaMode::Full);
    let strict = r.cells(SchemaMode::SnakemakeStrict);
    assert(full.take(10) =~= strict);
    assert(full =~= strict + full.skip(10));
    lemma_join_tab_concat(strict, full.skip(10));
}

/// When no sample read any counters, every cell after `s` and `h:m:s` is
/// `NA`, in both modes.
pub proof fn lemma_unmeasured_cells_are_na(r: BenchmarkRecord, mode: SchemaMode)
    requires
        !r.data_collected,
    ensures
        forall|i: int| 2 <= i < r.cells(mode).len() ==> #[trigger] r.cells(mode)[i] == "NA"@,
{
}

/// The widest cell bounds every cell, and the floor bounds the width.
pub proof fn lemma_max_byte_len_bounds(cells: Seq<Seq<char>>, floor: usize)
    ensures
        floor <= max_byte_len(cells, floor),
        forall|i: int| 0 <= i < cells.len() ==> byte_len(#[trigger] cells[i]) <= max_byte_len(
            cells,
            floor,
        ),
    decreases cells.len(),
{
    if cells.len() > 0 {
        lemma_max_byte_len_bounds(cells.drop_last(), floor);
        assert forall|i: int| 0 <= i < cells.len() implies byte_len(#[trigger] cells[i])
            <= max_byte_len(cells, floor) by {
            if i < cells.len() - 1 {
                assert(cells[i] == cells.drop_last()[i]);
            }
        }
    }
}

/// A cell no wider in bytes than `w` fills a field of `w` characters exactly.
proof fn lemma_padded_width(s: Seq<char>, w: usize)
    requires
        vstd::utf8::encode_utf8(s).len() <= usize::MAX,
        byte_len(s) <= w,
    ensures
        pad_right(s, w as nat).len() == w,
        pad_left(s, w as nat).len() == w,
{
    lemma_chars_le_bytes(s);
}

/// The Markdown table has a header line, an alignment line and one line per
/// metric; every line ends in a newline and all lines have the same length,
/// so both columns stay aligned. (Widths are measured in UTF-8 bytes, as
/// `str::len` does; the bound below only says that each cell's length fits
/// in `usize`.)
pub proof fn lemma_markdown_table_aligned(labels: Seq<Seq<char>>, values: Seq<Seq<char>>)
    requires
        labels.len() == values.len(),
        forall|i: int| 0 <= i < labels.len() ==> vstd::utf8::encode_utf8(#[trigger] labels[i]).len()
            <= usize::MAX,
        forall|i: int| 0 <= i < values.len() ==> vstd::utf8::encode_utf8(#[trigger] values[i]).len()
            <= usize::MAX,
    ensures
        ({
            let lines = markdown_lines(labels, values);
            let width = max_byte_len(labels, 6) + max_byte_len(values, 5) + 8;
            &&& lines.len() == labels.len() + 2
            &&& forall|i: int| 0 <= i < lines.len() ==> (#[trigger] lines[i]).len() == width
            &&& forall|i: int| 0 <= i < lines.len() ==> (#[trigger] lines[i]).last() == '\n'
        }),
{
    let mw = max_byte_len(labels, 6);
    let vw = max_byte_len(values, 5);
    let lines = markdown_lines(labels, values);
    lemma_max_byte_len_bounds(labels, 6);
    lemma_max_byte_len_bounds(values, 5);
    reveal_strlit("| ");
    reveal_strlit(" | ");
    reveal_strlit(" |\n");
    reveal_strlit("|:");
    reveal_strlit("|");
    reveal_strlit(":|\n");
    reveal_strlit("metric");
    reveal_strlit("value");
    assert forall|i: int| 0 <= i < lines.len() implies (#[trigger] lines[i]).len() == mw + vw + 8
        && lines[i].last() == '\n' by {
        if i == 0 {
            assert(pad_right("metric"@, mw as nat).len() == mw);
            assert(pad_left("value"@, vw as nat).len() == vw);
        } else if i == 1 {
            assert(lines[1] == rule_line(mw, vw));
            assert(repeated('-', (mw + 1) as nat).len() == mw + 1);
        } else {
            let k = i - 2;
            assert(lines[i] == table_line(labels[k], values[k], mw, vw));
            lemma_padded_width(labels[k], mw);
            lemma_padded_width(values[k], vw);
        }
    }
}


/// Each data line of a record's Markdown table pairs a column of `mode` with
/// that column's TSV cell, in TSV order: the table and the TSV row agree on
/// column order, value formatting, `-` and `NA`.
pub proof fn lemma_markdown_follows_tsv(r: BenchmarkRecord, mode: SchemaMode)
    ensures
        ({
            let labels = columns(mode);
            let values = r.cells(mode);
            let lines = markdown_lines(labels, values);
            forall|i: int|
                0 <= i < labels.len() ==> #[trigger] lines[i + 2] == table_line(
                    labels[i],
                    values[i],
                    max_byte_len(labels, 6),
                    max_byte_len(values, 5),
                )
        }),
{
}

/// A valid record's Markdown table has a header line, an alignment line
/// and one line per column of `mode`, all of the same length.
pub proof fn lemma_markdown_document_shape(r: BenchmarkRecord, mode: SchemaMode)
    requires
        r.valid(),
    ensures
        ({
            let lines = markdown_lines(columns(mode), r.cells(mode));
            &&& lines.len() == columns(mode).len() + 2
            &&& forall|i: int| 0 <= i < lines.len() ==> (#[trigger] lines[i]).len() == lines[0].len()
        }),
{
    let labels = columns(mode);
    let values = r.cells(mode);
    reveal_strlit("s");
    reveal_strlit("h:m:s");
    reveal_strlit("max_rss");
    reveal_strlit("max_vms");
    reveal_strlit("max_uss");
    reveal_strlit("max_pss");
    reveal_strlit("io_in");
    reveal_strlit("io_out");
    reveal_strlit("mean_load");
    reveal_strlit("cpu_time");
    reveal_strlit("major_page_faults");
    reveal_strlit("minor_page_faults");
    reveal_strlit("voluntary_ctx_switches");
    reveal_strlit("involuntary_ctx_switches");
    reveal_strlit("peak_n_threads");
    reveal_strlit("peak_n_procs");
    reveal_strlit("loadavg_1m_start");
    reveal_strlit("loadavg_1m_end");
    reveal_strlit("max_swap");
    reveal_strlit("page_cache_start");
    reveal_strlit("page_cache_end");
    assert forall|i: int| 0 <= i < labels.len() implies vstd::utf8::encode_utf8(
        #[trigger] labels[i],
    ).len() <= usize::MAX by {
        lemma_ascii_label_bytes(labels[i]);
    }
    lemma_row_text(r, mode);
    assert forall|i: int| 0 <= i < values.len() implies vstd::utf8::encode_utf8(
        #[trigger] values[i],
    ).len() <= usize::MAX by {
        assert(sound_cell(values[i]));
        lemma_ascii_bytes(values[i]);
    }
    lemma_markdown_table_aligned(labels, values);
}

/// A short ASCII name is as many bytes as characters.
proof fn lemma_ascii_label_bytes(s: Seq<char>)
    requires
        s.len() <= 64,
        forall|i: int| 0 <= i < s.len() ==> (#[trigger] s[i] as u32) < 0x80,
    ensures
        vstd::utf8::encode_utf8(s).len() == s.len(),
    decreases s.len(),
{
    if s.len() > 0 {
        lemma_ascii_label_bytes(s.drop_first());
    }
}


/// Text free of tabs and newlines, all ASCII.
pub open spec fn plain_text(s: Seq<char>) -> bool {
    &&& lacks(s, '\t')
    &&& lacks(s, '\n')
    &&& is_ascii_text(s)
}

/// A cell that the reports emit: one tab-separated field of plain ASCII
/// text, at most 400 characters long.
pub open spec fn sound_cell(s: Seq<char>) -> bool {
    &&& s.len() > 0
    &&& s.len() <= 400
    &&& plain_text(s)
}

/// Plain text stays plain when concatenated.
proof fn lemma_plain_concat(a: Seq<char>, b: Seq<char>)
    requires
        plain_text(a),
        plain_text(b),
    ensures
        plain_text(a + b),
{
    lemma_lacks_concat(a, b, '\t');
    lemma_lacks_concat(a, b, '\n');
    lemma_ascii_concat(a, b);
}

/// Literal text used by the reports is plain.
proof fn lemma_literal_plain(s: &str)
    requires
        forall|i: int| 0 <= i < s@.len() ==> printable(#[trigger] s@[i]) || s@[i] == ' ',
    ensures
        plain_text(s@),
{
}

/// A valid rendering is a sound cell, and reads neither `-` nor `NA`.
proof fn lemma_rendering_cell(s: Seq<char>)
    requires
        valid_rendering(s),
    ensures
        sound_cell(s),
        s != "-"@,
        s != "NA"@,
{
    assert forall|i: int| 0 <= i < s.len() implies #[trigger] s[i] != '\t' && s[i] != '\n' && (
    s[i] as u32) < 0x80 by {
        assert(printable(s[i]));
    }
}

/// `-` and `NA` are sound cells, and differ.
proof fn lemma_marker_cells()
    ensures
        sound_cell("-"@),
        sound_cell("NA"@),
        "-"@ != "NA"@,
{
    reveal_strlit("-");
    reveal_strlit("NA");
    assert("-"@.len() != "NA"@.len());
}

/// The rendering of a count is a sound cell, and reads neither `-` nor `NA`.
proof fn lemma_decimal_cell(n: u64)
    ensures
        sound_cell(decimal(n as nat)),
        decimal(n as nat).len() <= 20,
        decimal(n as nat) != "-"@,
        decimal(n as nat) != "NA"@,
{
    reveal_strlit("-");
    reveal_strlit("NA");
    lemma_decimal_digits(n as nat);
    lemma_decimal_u64_len(n);
    let d = decimal(n as nat);
    assert forall|i: int| 0 <= i < d.len() implies #[trigger] d[i] != '\t' && d[i] != '\n' && (
    d[i] as u32) < 0x80 by {
        assert(48 <= (d[i] as u32) <= 57);
    }
    assert(d[0] != "-"@[0]);
    assert(d[0] != "NA"@[0]);
}

/// A two-digit rendering is plain, and at most twenty-one characters long.
proof fn lemma_decimal2_cell(n: u64)
    ensures
        plain_text(decimal2(n as nat)),
        0 < decimal2(n as nat).len() <= 21,
{
    lemma_decimal_cell(n);
    if n < 10 {
        assert(decimal(n as nat).len() == 1);
        assert(plain_text(seq!['0']));
        lemma_plain_concat(seq!['0'], decimal(n as nat));
    }
}

/// The `h:m:s` cell is a sound cell, and reads neither `-` nor `NA`.
proof fn lemma_hms_cell(total: u64)
    ensures
        sound_cell(hms_text(total as nat)),
        hms_text(total as nat) != "-"@,
        hms_text(total as nat) != "NA"@,
{
    reveal_strlit("-");
    reveal_strlit("NA");
    reveal_strlit("1 day, ");
    reveal_strlit(" days, ");
    let (days, hh, mm, ss) = hms_parts(total as nat);
    assert(days <= total && hh < 24 && mm < 60 && ss < 60) by {
        crate::record::lemma_hms_parts(total as nat);
    }
    lemma_decimal_cell(days as u64);
    lemma_decimal_cell(hh as u64);
    lemma_decimal2_cell(mm as u64);
    lemma_decimal2_cell(ss as u64);
    let colon = seq![':'];
    assert(plain_text(colon));
    let a = decimal(hh);
    let b = decimal2(mm);
    let c = decimal2(ss);
    lemma_plain_concat(a, colon);
    lemma_plain_concat(a + colon, b);
    lemma_plain_concat(a + colon + b, colon);
    lemma_plain_concat(a + colon + b + colon, c);
    let body = a + colon + b + colon + c;
    assert(5 <= body.len() <= 64);
    assert("1 day, "@.len() == 7);
    assert(" days, "@.len() == 7);
    assert(hms_text(total as nat) == if days == 0 {
        body
    } else if days == 1 {
        "1 day, "@ + body
    } else {
        decimal(days) + " days, "@ + body
    });
    lemma_literal_plain("1 day, ");
    lemma_literal_plain(" days, ");
    lemma_plain_concat("1 day, "@, body);
    lemma_plain_concat(decimal(days), " days, "@);
    lemma_plain_concat(decimal(days) + " days, "@, body);
    assert(hms_text(total as nat).len() >= 5);
}

/// An optional measurement's cell is sound, never `NA`, and `-` exactly
/// when the measurement is missing.
proof fn lemma_float_cell(value: Option<Quantity>)
    requires
        valid_optional(value),
    ensures
        sound_cell(optional_float_cell(value)),
        optional_float_cell(value) != "NA"@,
        optional_float_cell(value) == "-"@ <==> value is None,
{
    lemma_marker_cells();
    if let Some(q) = value {
        lemma_rendering_cell(q.fixed2@);
    }
}

/// An optional count's cell is sound, never `NA`, and `-` exactly when the
/// count is missing.
proof fn lemma_count_cell(value: Option<u64>)
    ensures
        sound_cell(optional_u64_cell(value)),
        optional_u64_cell(value) != "NA"@,
        optional_u64_cell(value) == "-"@ <==> value is None,
{
    lemma_marker_cells();
    lemma_optional_u64_cell(value);
    if let Some(v) = value {
        lemma_decimal_cell(v);
    }
}

/// The facts about the time cells of a valid record.
proof fn lemma_time_cells(r: BenchmarkRecord)
    requires
        r.valid(),
    ensures
        forall|i: int| 0 <= i < r.time_cells().len() ==> sound_cell(#[trigger] r.time_cells()[i])
            && r.time_cells()[i] != "NA"@ && r.time_cells()[i] != "-"@,
{
    lemma_rendering_cell(r.running_time.fixed4@);
    lemma_hms_cell(r.running_time.whole);
}

/// The facts about the Snakemake resource cells of a valid record.
proof fn lemma_snakemake_cells(r: BenchmarkRecord)
    requires
        r.valid(),
    ensures
        forall|i: int|
            0 <= i < r.snakemake_cells().len() ==> sound_cell(#[trigger] r.snakemake_cells()[i])
                && r.snakemake_cells()[i] != "NA"@ && (r.snakemake_cells()[i] == "-"@
                <==> r.missing_flags()[i]),
{
    lemma_marker_cells();
    lemma_float_cell(r.max_rss);
    lemma_float_cell(r.max_vms);
    lemma_float_cell(r.max_uss);
    lemma_float_cell(r.max_pss);
    lemma_float_cell(r.io_in);
    lemma_float_cell(r.io_out);
    lemma_rendering_cell(r.mean_load.fixed2@);
    lemma_rendering_cell(r.cpu_time.fixed2@);
}

/// The facts about the added cells of a valid record.
#[verifier::rlimit(40)]
proof fn lemma_added_cells(r: BenchmarkRecord)
    requires
        r.valid(),
    ensures
        forall|i: int|
            0 <= i < r.added_cells().len() ==> sound_cell(#[trigger] r.added_cells()[i])
                && r.added_cells()[i] != "NA"@ && (r.added_cells()[i] == "-"@
                <==> r.missing_flags()[i + 8]),
{
    lemma_marker_cells();
    lemma_count_cell(r.major_page_faults);
    lemma_count_cell(r.minor_page_faults);
    lemma_count_cell(r.voluntary_ctx_switches);
    lemma_count_cell(r.involuntary_ctx_switches);
    lemma_count_cell(r.peak_n_threads);
    lemma_decimal_cell(r.peak_n_procs);
    lemma_float_cell(r.loadavg_1m_start);
    lemma_float_cell(r.loadavg_1m_end);
    lemma_float_cell(r.max_swap);
    lemma_float_cell(r.page_cache_start);
    lemma_float_cell(r.page_cache_end);
}

/// The facts about every cell of a valid record.
proof fn lemma_record_cells(r: BenchmarkRecord)
    requires
        r.valid(),
    ensures
        forall|i: int| 0 <= i < r.time_cells().len() ==> sound_cell(#[trigger] r.time_cells()[i])
            && r.time_cells()[i] != "NA"@ && r.time_cells()[i] != "-"@,
        forall|i: int|
            0 <= i < r.snakemake_cells().len() ==> sound_cell(#[trigger] r.snakemake_cells()[i])
                && r.snakemake_cells()[i] != "NA"@ && (r.snakemake_cells()[i] == "-"@
                <==> r.missing_flags()[i]),
        forall|i: int|
            0 <= i < r.added_cells().len() ==> sound_cell(#[trigger] r.added_cells()[i])
                && r.added_cells()[i] != "NA"@ && (r.added_cells()[i] == "-"@
                <==> r.missing_flags()[i + 8]),
{
    lemma_time_cells(r);
    lemma_snakemake_cells(r);
    lemma_added_cells(r);
}

/// Every cell of a valid record's row, in either mode and with or without
/// data, is a sound cell; so the row has exactly one tab fewer than its
/// header has columns, and no newline: splitting it at tabs gives one
/// non-empty field per column.
pub proof fn lemma_row_text(r: BenchmarkRecord, mode: SchemaMode)
    requires
        r.valid(),
    ensures
        forall|i: int| 0 <= i < r.cells(mode).len() ==> sound_cell(#[trigger] r.cells(mode)[i]),
        count_char(join_tab(r.cells(mode)), '\t') + 1 == columns(mode).len(),
        lacks(join_tab(r.cells(mode)), '\n'),
{
    lemma_record_cells(r);
    lemma_marker_cells();
    let cells = r.cells(mode);
    let t = r.time_cells();
    assert forall|i: int| 0 <= i < cells.len() implies sound_cell(#[trigger] cells[i]) by {
        if i < 2 {
            assert(cells[i] == t[i]);
        } else if !r.data_collected {
            assert(cells[i] == "NA"@);
        } else if i < 10 {
            assert(cells[i] == r.snakemake_cells()[i - 2]);
        } else {
            assert(cells[i] == r.added_cells()[i - 10]);
        }
    }
    assert forall|i: int| 0 <= i < cells.len() implies is_field(#[trigger] cells[i]) by {
        assert(sound_cell(cells[i]));
    }
    lemma_join_tab_fields(cells);
}

/// A valid record with data shows no `NA` cell, in either mode.
pub proof fn lemma_measured_row_has_no_na(r: BenchmarkRecord, mode: SchemaMode)
    requires
        r.valid(),
        r.data_collected,
    ensures
        forall|i: int| 0 <= i < r.cells(mode).len() ==> #[trigger] r.cells(mode)[i] != "NA"@,
{
    lemma_record_cells(r);
    let cells = r.cells(mode);
    assert forall|i: int| 0 <= i < cells.len() implies #[trigger] cells[i] != "NA"@ by {
        if i < 2 {
            assert(cells[i] == r.time_cells()[i]);
        } else if i < 10 {
            assert(cells[i] == r.snakemake_cells()[i - 2]);
        } else {
            assert(cells[i] == r.added_cells()[i - 10]);
        }
    }
}

/// In a valid record with data, a cell reads `-` exactly when the metric of
/// its column is missing; `s` and `h:m:s` never read `-`.
pub proof fn lemma_dash_marks_missing(r: BenchmarkRecord, mode: SchemaMode)
    requires
        r.valid(),
        r.data_collected,
    ensures
        r.cells(mode)[0] != "-"@,
        r.cells(mode)[1] != "-"@,
        forall|i: int|
            2 <= i < r.cells(mode).len() ==> (#[trigger] r.cells(mode)[i] == "-"@
                <==> r.missing_flags()[i - 2]),
{
    lemma_record_cells(r);
    let cells = r.cells(mode);
    assert(cells[0] == r.time_cells()[0]);
    assert(cells[1] == r.time_cells()[1]);
    assert forall|i: int| 2 <= i < cells.len() implies (#[trigger] cells[i] == "-"@
        <==> r.missing_flags()[i - 2]) by {
        if i < 10 {
            assert(cells[i] == r.snakemake_cells()[i - 2]);
        } else {
            assert(cells[i] == r.added_cells()[i - 10]);
        }
    }
}

/// Every cell of a valid tick's trace row is a sound cell other than `NA`;
/// the row has one tab fewer than the trace header has columns, and no
/// newline.
pub proof fn lemma_trace_row_text(t: TickRecord)
    requires
        t.valid(),
    ensures
        forall|i: int| 0 <= i < t.cells().len() ==> sound_cell(#[trigger] t.cells()[i]) && t.cells()[i]
            != "NA"@,
        count_char(join_tab(t.cells()), '\t') + 1 == trace_columns().len(),
        lacks(join_tab(t.cells()), '\n'),
{
    lemma_rendering_cell(t.elapsed.fixed4@);
    lemma_rendering_cell(t.rss.fixed2@);
    lemma_rendering_cell(t.vms.fixed2@);
    lemma_float_cell(t.uss);
    lemma_float_cell(t.pss);
    lemma_float_cell(t.io_in);
    lemma_float_cell(t.io_out);
    lemma_rendering_cell(t.cpu_time.fixed2@);
    lemma_decimal_cell(t.n_procs as u64);
    lemma_count_cell(t.major_page_faults);
    lemma_count_cell(t.minor_page_faults);
    lemma_count_cell(t.voluntary_ctx_switches);
    lemma_count_cell(t.involuntary_ctx_switches);
    lemma_count_cell(t.n_threads);
    lemma_float_cell(t.swap);
    let cells = t.cells();
    assert forall|i: int| 0 <= i < cells.len() implies is_field(#[trigger] cells[i]) by {
        assert(sound_cell(cells[i]));
    }
    lemma_join_tab_fields(cells);
}

/// The size text of the summary is plain.
proof fn lemma_mib_plain(value: Option<Quantity>)
    requires
        valid_optional(value),
    ensures
        plain_text(mib_text(value)),
{
    lemma_marker_cells();
    reveal_strlit("MiB");
    if let Some(q) = value {
        lemma_rendering_cell(q.fixed1@);
        lemma_literal_plain("MiB");
        lemma_plain_concat(q.fixed1@, "MiB"@);
    }
}

/// The summary of a valid record is a single line: it holds no newline
/// (and no tab).
pub proof fn lemma_summary_is_one_line(r: BenchmarkRecord)
    requires
        r.valid(),
    ensures
        lacks(r.summary_text(), '\n'),
        lacks(r.summary_text(), '\t'),
{
    reveal_strlit("wall=");
    reveal_strlit("s cpu=");
    reveal_strlit("s mean_load=");
    reveal_strlit("% max_rss=");
    reveal_strlit(" max_uss=");
    reveal_strlit(" io_in=");
    reveal_strlit(" io_out=");
    lemma_literal_plain("wall=");
    lemma_literal_plain("s cpu=");
    lemma_literal_plain("s mean_load=");
    lemma_literal_plain("% max_rss=");
    lemma_literal_plain(" max_uss=");
    lemma_literal_plain(" io_in=");
    lemma_literal_plain(" io_out=");
    lemma_rendering_cell(r.running_time.fixed2@);
    lemma_rendering_cell(r.cpu_time.fixed2@);
    lemma_rendering_cell(r.mean_load.fixed0@);
    lemma_mib_plain(r.max_rss);
    lemma_mib_plain(r.max_uss);
    lemma_mib_plain(r.io_in);
    lemma_mib_plain(r.io_out);
    let p0 = "wall="@ + r.running_time.fixed2@;
    lemma_plain_concat("wall="@, r.running_time.fixed2@);
    let p1 = p0 + "s cpu="@;
    lemma_plain_concat(p0, "s cpu="@);
    let p2 = p1 + r.cpu_time.fixed2@;
    lemma_plain_concat(p1, r.cpu_time.fixed2@);
    let p3 = p2 + "s mean_load="@;
    lemma_plain_concat(p2, "s mean_load="@);
    let p4 = p3 + r.mean_load.fixed0@;
    lemma_plain_concat(p3, r.mean_load.fixed0@);
    let p5 = p4 + "% max_rss="@;
    lemma_plain_concat(p4, "% max_rss="@);
    let p6 = p5 + mib_text(r.max_rss);
    lemma_plain_concat(p5, mib_text(r.max_rss));
    let p7 = p6 + " max_uss="@;
    lemma_plain_concat(p6, " max_uss="@);
    let p8 = p7 + mib_text(r.max_uss);
    lemma_plain_concat(p7, mib_text(r.max_uss));
    let p9 = p8 + " io_in="@;
    lemma_plain_concat(p8, " io_in="@);
    let p10 = p9 + mib_text(r.io_in);
    lemma_plain_concat(p9, mib_text(r.io_in));
    let p11 = p10 + " io_out="@;
    lemma_plain_concat(p10, " io_out="@);
    lemma_plain_concat(p11, mib_text(r.io_out));
    assert(r.summary_text() == p11 + mib_text(r.io_out));
}


/// `h:m:s` of `t` seconds: the hours of the day (not zero-padded), then the
/// minutes of the hour and the seconds of the minute as exactly two digits
/// each, preceded by `1 day, ` or `N days, ` once a day has passed.
pub proof fn lemma_hms_text_fields(t: nat)
    ensures
        ({
            let d = t / 86_400;
            let h = (t / 3600) % 24;
            let m = (t / 60) % 60;
            let s = t % 60;
            let clock = decimal(h) + seq![
                ':',
                digit_char(m / 10),
                digit_char(m % 10),
                ':',
                digit_char(s / 10),
                digit_char(s % 10),
            ];
            hms_text(t) == if d == 0 {
                clock
            } else if d == 1 {
                "1 day, "@ + clock
            } else {
                decimal(d) + " days, "@ + clock
            }
        }),
{
    let ti = t as int;
    let q = ti / 86_400;
    let rem = ti % 86_400;
    lemma_fundamental_div_mod(ti, 86_400);
    lemma_mod_pos_bound(ti, 86_400);
    let a = rem / 3600;
    let b = rem % 3600;
    lemma_fundamental_div_mod(rem, 3600);
    lemma_mod_pos_bound(rem, 3600);
    let c = b / 60;
    let e = b % 60;
    lemma_fundamental_div_mod(b, 60);
    lemma_mod_pos_bound(b, 60);
    assert(0 <= a < 24);
    assert(0 <= c < 60);
    lemma_fundamental_div_mod_converse(ti, 3600, 24 * q + a, b);
    lemma_fundamental_div_mod_converse(24 * q + a, 24, q, a);
    lemma_fundamental_div_mod_converse(ti, 60, 60 * (24 * q + a) + c, e);
    lemma_fundamental_div_mod_converse(60 * (24 * q + a) + c, 60, 24 * q + a, c);
    lemma_fundamental_div_mod_converse(rem, 60, 60 * a + c, e);
    let (days, hh, mm, ss) = hms_parts(t);
    assert(days == q && hh == a && mm == c && ss == e);
    assert(mm == (t / 60) % 60);
    assert(ss == t % 60);
    assert(hh == (t / 3600) % 24);
    lemma_decimal2_two_digits(mm);
    lemma_decimal2_two_digits(ss);
    let clock = decimal(hh) + seq![':'] + decimal2(mm) + seq![':'] + decimal2(ss);
    assert(clock =~= decimal(hh) + seq![
        ':',
        digit_char(mm / 10),
        digit_char(mm % 10),
        ':',
        digit_char(ss / 10),
        digit_char(ss % 10),
    ]);
}

/// Each cell of an aggregate row renders its own column's metric: `s` and
/// `h:m:s` always, and with data every resource column its field (its
/// two-decimal text or bare count, `-` when missing). The column names are
/// those of the header at the same position.
pub proof fn lemma_row_cells_by_column(r: BenchmarkRecord, mode: SchemaMode)
    ensures
        ({
            let c = r.cells(mode);
            let n = columns(mode);
            &&& c.len() == n.len()
            &&& n[0] == "s"@ && n[1] == "h:m:s"@ && n[2] == "max_rss"@ && n[3] == "max_vms"@
            &&& n[4] == "max_uss"@ && n[5] == "max_pss"@ && n[6] == "io_in"@ && n[7] == "io_out"@
            &&& n[8] == "mean_load"@ && n[9] == "cpu_time"@
            &&& mode == SchemaMode::Full ==> {
                &&& n[10] == "major_page_faults"@ && n[11] == "minor_page_faults"@
                &&& n[12] == "voluntary_ctx_switches"@ && n[13] == "involuntary_ctx_switches"@
                &&& n[14] == "peak_n_threads"@ && n[15] == "peak_n_procs"@
                &&& n[16] == "loadavg_1m_start"@ && n[17] == "loadavg_1m_end"@
                &&& n[18] == "max_swap"@ && n[19] == "page_cache_start"@
                &&& n[20] == "page_cache_end"@
            }
        }),
        r.cells(mode)[0] == r.running_time.fixed4@,
        r.cells(mode)[1] == hms_text(r.running_time.whole as nat),
        r.data_collected ==> r.cells(mode)[2] == (match r.max_rss { Some(q) => q.fixed2@, None => "-"@ }),
        r.data_collected ==> r.cells(mode)[3] == (match r.max_vms { Some(q) => q.fixed2@, None => "-"@ }),
        r.data_collected ==> r.cells(mode)[4] == (match r.max_uss { Some(q) => q.fixed2@, None => "-"@ }),
        r.data_collected ==> r.cells(mode)[5] == (match r.max_pss { Some(q) => q.fixed2@, None => "-"@ }),
        r.data_collected ==> r.cells(mode)[6] == (match r.io_in { Some(q) => q.fixed2@, None => "-"@ }),
        r.data_collected ==> r.cells(mode)[7] == (match r.io_out { Some(q) => q.fixed2@, None => "-"@ }),
        r.data_collected ==> r.cells(mode)[8] == r.mean_load.fixed2@,
        r.data_collected ==> r.cells(mode)[9] == r.cpu_time.fixed2@,
        r.data_collected && mode == SchemaMode::Full ==> r.cells(mode)[10] == (match r.major_page_faults { Some(v) => decimal(v as nat), None => "-"@ }),
        r.data_collected && mode == SchemaMode::Full ==> r.cells(mode)[11] == (match r.minor_page_faults { Some(v) => decimal(v as nat), None => "-"@ }),
        r.data_collected && mode == SchemaMode::Full ==> r.cells(mode)[12] == (match r.voluntary_ctx_switches { Some(v) => decimal(v as nat), None => "-"@ }),
        r.data_collected && mode == SchemaMode::Full ==> r.cells(mode)[13] == (match r.involuntary_ctx_switches { Some(v) => decimal(v as nat), None => "-"@ }),
        r.data_collected && mode == SchemaMode::Full ==> r.cells(mode)[14] == (match r.peak_n_threads { Some(v) => decimal(v as nat), None => "-"@ }),
        r.data_collected && mode == SchemaMode::Full ==> r.cells(mode)[15] == decimal(r.peak_n_procs as nat),
        r.data_collected && mode == SchemaMode::Full ==> r.cells(mode)[16] == (match r.loadavg_1m_start { Some(q) => q.fixed2@, None => "-"@ }),
        r.data_collected && mode == SchemaMode::Full ==> r.cells(mode)[17] == (match r.loadavg_1m_end { Some(q) => q.fixed2@, None => "-"@ }),
        r.data_collected && mode == SchemaMode::Full ==> r.cells(mode)[18] == (match r.max_swap { Some(q) => q.fixed2@, None => "-"@ }),
        r.data_collected && mode == SchemaMode::Full ==> r.cells(mode)[19] == (match r.page_cache_start { Some(q) => q.fixed2@, None => "-"@ }),
        r.data_collected && mode == SchemaMode::Full ==> r.cells(mode)[20] == (match r.page_cache_end { Some(q) => q.fixed2@, None => "-"@ }),
{
}

/// Each cell of a trace row renders its own column's metric (`-` when that
/// metric is missing), in the order of the trace header.
pub proof fn lemma_trace_cells_by_column(t: TickRecord)
    ensures
        t.cells().len() == trace_columns().len(),
        t.cells()[0] == t.elapsed.fixed4@,
        t.cells()[1] == t.rss.fixed2@,
        t.cells()[2] == t.vms.fixed2@,
        t.cells()[3] == (match t.uss { Some(q) => q.fixed2@, None => "-"@ }),
        t.cells()[4] == (match t.pss { Some(q) => q.fixed2@, None => "-"@ }),
        t.cells()[5] == (match t.io_in { Some(q) => q.fixed2@, None => "-"@ }),
        t.cells()[6] == (match t.io_out { Some(q) => q.fixed2@, None => "-"@ }),
        t.cells()[7] == t.cpu_time.fixed2@,
        t.cells()[8] == decimal(t.n_procs as nat),
        t.cells()[9] == (match t.major_page_faults { Some(v) => decimal(v as nat), None => "-"@ }),
        t.cells()[10] == (match t.minor_page_faults { Some(v) => decimal(v as nat), None => "-"@ }),
        t.cells()[11] == (match t.voluntary_ctx_switches { Some(v) => decimal(v as nat), None => "-"@ }),
        t.cells()[12] == (match t.involuntary_ctx_switches { Some(v) => decimal(v as nat), None => "-"@ }),
        t.cells()[13] == (match t.n_threads { Some(v) => decimal(v as nat), None => "-"@ }),
        t.cells()[14] == (match t.swap { Some(q) => q.fixed2@, None => "-"@ }),
        trace_columns()[9] == "major_page_faults"@,
        trace_columns()[10] == "minor_page_faults"@,
        trace_columns()[14] == "swap"@,
{
}

/// In a valid tick, a trace cell reads `-` exactly when its own metric is
/// missing; the always-present columns never read `-`.
pub proof fn lemma_trace_dash_marks_missing(t: TickRecord)
    requires
        t.valid(),
    ensures
        t.cells()[0] != "-"@ && t.cells()[1] != "-"@ && t.cells()[2] != "-"@,
        t.cells()[7] != "-"@ && t.cells()[8] != "-"@,
        t.cells()[3] == "-"@ <==> t.uss is None,
        t.cells()[4] == "-"@ <==> t.pss is None,
        t.cells()[5] == "-"@ <==> t.io_in is None,
        t.cells()[6] == "-"@ <==> t.io_out is None,
        t.cells()[9] == "-"@ <==> t.major_page_faults is None,
        t.cells()[10] == "-"@ <==> t.minor_page_faults is None,
        t.cells()[11] == "-"@ <==> t.voluntary_ctx_switches is None,
        t.cells()[12] == "-"@ <==> t.involuntary_ctx_switches is None,
        t.cells()[13] == "-"@ <==> t.n_threads is None,
        t.cells()[14] == "-"@ <==> t.swap is None,
{
    lemma_trace_row_text(t);
    lemma_rendering_cell(t.elapsed.fixed4@);
    lemma_rendering_cell(t.rss.fixed2@);
    lemma_rendering_cell(t.vms.fixed2@);
    lemma_rendering_cell(t.cpu_time.fixed2@);
    lemma_decimal_cell(t.n_procs as u64);
    lemma_float_cell(t.uss);
    lemma_float_cell(t.pss);
    lemma_float_cell(t.io_in);
    lemma_float_cell(t.io_out);
    lemma_float_cell(t.swap);
    lemma_count_cell(t.major_page_faults);
    lemma_count_cell(t.minor_page_faults);
    lemma_count_cell(t.voluntary_ctx_switches);
    lemma_count_cell(t.involuntary_ctx_switches);
    lemma_count_cell(t.n_threads);
}

/// A size in the summary is its one-decimal rendering followed by `MiB`,
/// and `-` when missing; for a valid size it is `-` exactly when missing.
pub proof fn lemma_mib_text(value: Option<Quantity>)
    ensures
        value is None ==> mib_text(value) == "-"@,
        value matches Some(q) ==> mib_text(value) == q.fixed1@ + "MiB"@,
        valid_optional(value) ==> (mib_text(value) == "-"@ <==> value is None),
{
    reveal_strlit("MiB");
    reveal_strlit("-");
    if let Some(q) = value {
        assert((q.fixed1@ + "MiB"@).len() >= 3);
    }
}

/// The summary names each figure and prints it: the wall and CPU times
/// with two decimals and seconds, the load with no decimals and a percent
/// sign, and the four sizes in MiB with one decimal (or `-` when missing).
pub proof fn lemma_summary_fields(r: BenchmarkRecord)
    ensures
        r.summary_text() == "wall="@ + r.running_time.fixed2@ + "s cpu="@ + r.cpu_time.fixed2@
            + "s mean_load="@ + r.mean_load.fixed0@ + "% max_rss="@ + (match r.max_rss {
            Some(q) => q.fixed1@ + "MiB"@,
            None => "-"@,
        }) + " max_uss="@ + (match r.max_uss {
            Some(q) => q.fixed1@ + "MiB"@,
            None => "-"@,
        }) + " io_in="@ + (match r.io_in {
            Some(q) => q.fixed1@ + "MiB"@,
            None => "-"@,
        }) + " io_out="@ + (match r.io_out {
            Some(q) => q.fixed1@ + "MiB"@,
            None => "-"@,
        }),
{
    lemma_mib_text(r.max_rss);
    lemma_mib_text(r.max_uss);
    lemma_mib_text(r.io_in);
    lemma_mib_text(r.io_out);
}

/// An optional measurement's cell is its two-decimal rendering, or `-` when
/// missing; an optional count's cell is its digits, which read back as the
/// count, or `-` when missing.
pub proof fn lemma_optional_cells(value: Option<Quantity>, count: Option<u64>)
    ensures
        value matches Some(q) ==> optional_float_cell(value) == q.fixed2@,
        value is None ==> optional_float_cell(value) == "-"@,
        count matches Some(v) ==> crate::text::digits_value(optional_u64_cell(count)) == v,
        count is None ==> optional_u64_cell(count) == "-"@,
{
    if let Some(v) = count {
        crate::text::lemma_decimal_reads_back(v as nat);
    }
}


/// A left-aligned field of `w` starts with the text and is filled with
/// spaces; a right-aligned one ends with the text after spaces. Text at
/// least `w` long is left as it is.
pub proof fn lemma_padding(s: Seq<char>, w: nat)
    ensures
        s.len() <= w ==> {
            &&& pad_right(s, w).len() == w
            &&& pad_right(s, w).take(s.len() as int) == s
            &&& forall|i: int| s.len() <= i < w ==> #[trigger] pad_right(s, w)[i] == ' '
            &&& pad_left(s, w).len() == w
            &&& pad_left(s, w).skip(w - s.len()) == s
            &&& forall|i: int| 0 <= i < w - s.len() ==> #[trigger] pad_left(s, w)[i] == ' '
        },
        s.len() >= w ==> pad_right(s, w) == s && pad_left(s, w) == s,
{
    if s.len() <= w {
        assert(pad_right(s, w).take(s.len() as int) =~= s);
        assert(pad_left(s, w).skip(w - s.len()) =~= s);
    }
}

/// A table line is `| `, the metric, spaces up to the metric width, ` | `,
/// spaces, the value ending at the value width, and ` |` with a newline.
pub proof fn lemma_table_line_layout(m: Seq<char>, v: Seq<char>, mw: usize, vw: usize)
    requires
        m.len() <= mw,
        v.len() <= vw,
    ensures
        table_line(m, v, mw, vw) == "| "@ + m + repeated(' ', (mw - m.len()) as nat) + " | "@
            + repeated(' ', (vw - v.len()) as nat) + v + " |\n"@,
{
    assert(pad_right(m, mw as nat) =~= m + repeated(' ', (mw - m.len()) as nat));
    assert(pad_left(v, vw as nat) =~= repeated(' ', (vw - v.len()) as nat) + v);
}

/// The column width is the floor or the byte length of some cell, whichever
/// is larger: no wider than it needs to be.
pub proof fn lemma_max_byte_len_attained(cells: Seq<Seq<char>>, floor: usize)
    ensures
        max_byte_len(cells, floor) == floor || exists|i: int|
            0 <= i < cells.len() && max_byte_len(cells, floor) == byte_len(#[trigger] cells[i]),
    decreases cells.len(),
{
    if cells.len() > 0 {
        lemma_max_byte_len_attained(cells.drop_last(), floor);
        let w = max_byte_len(cells.drop_last(), floor);
        if byte_len(cells.last()) > w {
            assert(max_byte_len(cells, floor) == byte_len(cells[cells.len() - 1]));
        } else if w != floor {
            let i = choose|i: int|
                0 <= i < cells.drop_last().len() && w == byte_len(
                    #[trigger] cells.drop_last()[i],
                );
            assert(cells.drop_last()[i] == cells[i]);
        }
    }
}

} // verus!
