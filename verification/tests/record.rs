use tricord::record::{
    format_hms, format_optional_float, format_optional_u64, tsv_header, BenchmarkRecord,
    Quantity, SchemaMode, TickRecord, TRACE_TSV_HEADER, TSV_HEADER, TSV_HEADER_FULL,
};

/// The library's stand-in for a float, written out as the reports print it.
fn q(v: f64) -> Quantity {
    Quantity::new(
        format!("{v}"),
        format!("{v:.0}"),
        format!("{v:.1}"),
        format!("{v:.2}"),
        format!("{v:.4}"),
        v.max(0.0) as u64,
    )
    .expect("a float renders as printable text")
}

fn full_record() -> BenchmarkRecord {
    BenchmarkRecord {
        running_time: q(12.3456),
        max_rss: Some(q(101.5)),
        max_vms: Some(q(2048.0)),
        max_uss: Some(q(95.2)),
        max_pss: Some(q(96.0)),
        io_in: Some(q(1.25)),
        io_out: Some(q(0.5)),
        mean_load: q(175.0),
        cpu_time: q(21.6),
        major_page_faults: Some(42),
        minor_page_faults: Some(1234),
        voluntary_ctx_switches: Some(80),
        involuntary_ctx_switches: Some(7),
        peak_n_threads: Some(13),
        peak_n_procs: 4,
        loadavg_1m_start: Some(q(0.50)),
        loadavg_1m_end: Some(q(2.25)),
        max_swap: Some(q(64.00)),
        page_cache_start: Some(q(512.00)),
        page_cache_end: Some(q(480.25)),
        data_collected: true,
    }
}

#[test]
fn header_matches_snakemake() {
    assert_eq!(
        TSV_HEADER,
        "s\th:m:s\tmax_rss\tmax_vms\tmax_uss\tmax_pss\tio_in\tio_out\tmean_load\tcpu_time"
    );
}

#[test]
fn header_full_appends_tricord_columns() {
    assert!(TSV_HEADER_FULL.starts_with(TSV_HEADER));
    // No reordering of the snakemake prefix.
    let strict_cols: Vec<&str> = TSV_HEADER.split('\t').collect();
    let full_cols: Vec<&str> = TSV_HEADER_FULL.split('\t').collect();
    assert_eq!(&full_cols[..strict_cols.len()], &strict_cols[..]);
    // Every added column lives after the snakemake prefix.
    for col in [
        "major_page_faults",
        "minor_page_faults",
        "voluntary_ctx_switches",
        "involuntary_ctx_switches",
        "peak_n_threads",
        "peak_n_procs",
        "page_cache_start",
        "page_cache_end",
    ] {
        assert!(full_cols.contains(&col), "missing {col} in {TSV_HEADER_FULL}");
    }
}

#[test]
fn tsv_header_dispatches_on_mode() {
    assert_eq!(tsv_header(SchemaMode::SnakemakeStrict), TSV_HEADER);
    assert_eq!(tsv_header(SchemaMode::Full), TSV_HEADER_FULL);
}

#[test]
fn hms_zero() {
    assert_eq!(format_hms(&q(0.0)), "0:00:00");
}

#[test]
fn hms_seconds() {
    assert_eq!(format_hms(&q(7.9)), "0:00:07");
    assert_eq!(format_hms(&q(59.0)), "0:00:59");
}

#[test]
fn hms_minutes_hours() {
    assert_eq!(format_hms(&q(60.0)), "0:01:00");
    assert_eq!(format_hms(&q(3661.0)), "1:01:01");
}

#[test]
fn hms_days_singular_and_plural() {
    assert_eq!(format_hms(&q(86_400.0)), "1 day, 0:00:00");
    assert_eq!(format_hms(&q(86_400.0 * 2.0 + 3661.0)), "2 days, 1:01:01");
}

#[test]
fn tsv_row_no_data_strict_has_10_nas() {
    let record =
        BenchmarkRecord { running_time: q(0.1234), data_collected: false, ..Default::default() };
    assert_eq!(
        record.to_tsv_row(SchemaMode::SnakemakeStrict),
        "0.1234\t0:00:00\tNA\tNA\tNA\tNA\tNA\tNA\tNA\tNA"
    );
}

#[test]
fn tsv_row_no_data_full_has_one_na_per_full_column() {
    let record =
        BenchmarkRecord { running_time: q(0.1234), data_collected: false, ..Default::default() };
    let total_cols = TSV_HEADER_FULL.split('\t').count();
    let row = record.to_tsv_row(SchemaMode::Full);
    assert!(row.starts_with("0.1234\t0:00:00\t"));
    assert_eq!(row.split('\t').count(), total_cols);
    assert_eq!(row.split('\t').filter(|c| *c == "NA").count(), total_cols - 2);
}

#[test]
fn tsv_row_full_mode_appends_all_tricord_columns() {
    assert_eq!(
        full_record().to_tsv_row(SchemaMode::Full),
        "12.3456\t0:00:12\t101.50\t2048.00\t95.20\t96.00\t1.25\t0.50\t175.00\t21.60\t\
         42\t1234\t80\t7\t13\t4\t0.50\t2.25\t64.00\t512.00\t480.25",
    );
}

#[test]
fn tsv_row_strict_mode_omits_tricord_columns() {
    assert_eq!(
        full_record().to_tsv_row(SchemaMode::SnakemakeStrict),
        "12.3456\t0:00:12\t101.50\t2048.00\t95.20\t96.00\t1.25\t0.50\t175.00\t21.60"
    );
}

#[test]
fn tsv_row_full_mode_renders_missing_tricord_metrics_as_dash() {
    let record = BenchmarkRecord {
        major_page_faults: None,
        minor_page_faults: None,
        voluntary_ctx_switches: None,
        involuntary_ctx_switches: None,
        peak_n_threads: None,
        loadavg_1m_start: None,
        loadavg_1m_end: None,
        max_swap: None,
        page_cache_start: None,
        page_cache_end: None,
        ..full_record()
    };
    let row = record.to_tsv_row(SchemaMode::Full);
    assert!(row.ends_with("\t-\t-\t-\t-\t-\t4\t-\t-\t-\t-\t-"), "row was: {row}");
}

#[test]
fn tsv_row_missing_io_renders_dash() {
    let record = BenchmarkRecord {
        running_time: q(1.0),
        max_rss: Some(q(10.0)),
        max_vms: Some(q(20.0)),
        max_uss: Some(q(8.0)),
        max_pss: None,
        io_in: None,
        io_out: None,
        mean_load: q(0.0),
        cpu_time: q(0.0),
        data_collected: true,
        ..Default::default()
    };
    assert_eq!(
        record.to_tsv_row(SchemaMode::SnakemakeStrict),
        "1.0000\t0:00:01\t10.00\t20.00\t8.00\t-\t-\t-\t0.00\t0.00"
    );
}

#[test]
fn tsv_document_strict_uses_snakemake_header() {
    let record =
        BenchmarkRecord { running_time: q(0.5), data_collected: false, ..Default::default() };
    let doc = record.to_tsv_document(SchemaMode::SnakemakeStrict);
    let mut lines = doc.lines();
    assert_eq!(lines.next(), Some(TSV_HEADER));
    assert!(lines.next().is_some_and(|line| line.starts_with("0.5000\t")));
    assert_eq!(lines.next(), None);
    assert!(doc.ends_with('\n'));
}

#[test]
fn tsv_document_full_uses_full_header() {
    let record =
        BenchmarkRecord { running_time: q(0.5), data_collected: false, ..Default::default() };
    let doc = record.to_tsv_document(SchemaMode::Full);
    let mut lines = doc.lines();
    assert_eq!(lines.next(), Some(TSV_HEADER_FULL));
    assert!(lines.next().is_some_and(|line| line.starts_with("0.5000\t")));
}

#[test]
fn trace_header_lists_per_tick_columns_including_page_faults() {
    assert_eq!(
        TRACE_TSV_HEADER,
        "s\trss\tvms\tuss\tpss\tio_in\tio_out\tcpu_time\tn_procs\t\
         major_page_faults\tminor_page_faults\t\
         voluntary_ctx_switches\tinvoluntary_ctx_switches\t\
         n_threads\tswap"
    );
}

#[test]
fn tick_row_full_data() {
    let tick = TickRecord {
        elapsed: q(0.5012),
        rss: q(102.30),
        vms: q(2048.0),
        uss: Some(q(95.2)),
        pss: Some(q(96.0)),
        io_in: Some(q(1.25)),
        io_out: Some(q(0.5)),
        cpu_time: q(0.75),
        n_procs: 3,
        major_page_faults: Some(2),
        minor_page_faults: Some(150),
        voluntary_ctx_switches: Some(11),
        involuntary_ctx_switches: Some(3),
        n_threads: Some(8),
        swap: Some(q(16.50)),
    };
    assert_eq!(
        tick.to_tsv_row(),
        "0.5012\t102.30\t2048.00\t95.20\t96.00\t1.25\t0.50\t0.75\t3\t2\t150\t11\t3\t8\t16.50"
    );
}

#[test]
fn tick_row_missing_optionals_render_as_dash() {
    let tick = TickRecord {
        elapsed: q(1.0),
        rss: q(10.0),
        vms: q(20.0),
        uss: None,
        pss: None,
        io_in: None,
        io_out: None,
        cpu_time: q(0.0),
        n_procs: 1,
        major_page_faults: None,
        minor_page_faults: None,
        voluntary_ctx_switches: None,
        involuntary_ctx_switches: None,
        n_threads: None,
        swap: None,
    };
    assert_eq!(
        tick.to_tsv_row(),
        "1.0000\t10.00\t20.00\t-\t-\t-\t-\t0.00\t1\t-\t-\t-\t-\t-\t-"
    );
}

#[test]
fn markdown_full_data_exact_layout() {
    let expected = "\
| metric                   |   value |
|:-------------------------|--------:|
| s                        | 12.3456 |
| h:m:s                    | 0:00:12 |
| max_rss                  |  101.50 |
| max_vms                  | 2048.00 |
| max_uss                  |   95.20 |
| max_pss                  |   96.00 |
| io_in                    |    1.25 |
| io_out                   |    0.50 |
| mean_load                |  175.00 |
| cpu_time                 |   21.60 |
| major_page_faults        |      42 |
| minor_page_faults        |    1234 |
| voluntary_ctx_switches   |      80 |
| involuntary_ctx_switches |       7 |
| peak_n_threads           |      13 |
| peak_n_procs             |       4 |
| loadavg_1m_start         |    0.50 |
| loadavg_1m_end           |    2.25 |
| max_swap                 |   64.00 |
| page_cache_start         |  512.00 |
| page_cache_end           |  480.25 |
";
    assert_eq!(full_record().to_markdown_document(SchemaMode::Full), expected);
}

#[test]
fn markdown_strict_mode_drops_tricord_added_rows() {
    let doc = full_record().to_markdown_document(SchemaMode::SnakemakeStrict);
    assert!(!doc.contains("major_page_faults"), "strict doc must not list page faults: {doc}");
    assert!(!doc.contains("minor_page_faults"));
    // Header + alignment row + 10 metric rows.
    assert_eq!(doc.lines().count(), 12);
}

#[test]
fn markdown_no_data_uses_na_in_resource_cells() {
    let record =
        BenchmarkRecord { running_time: q(0.1234), data_collected: false, ..Default::default() };
    let doc = record.to_markdown_document(SchemaMode::Full);
    for metric in [
        "max_rss",
        "max_vms",
        "max_uss",
        "max_pss",
        "io_in",
        "io_out",
        "mean_load",
        "cpu_time",
        "major_page_faults",
        "minor_page_faults",
    ] {
        let row = doc
            .lines()
            .find(|l| l.contains(metric))
            .unwrap_or_else(|| panic!("no row for {metric}"));
        assert!(row.ends_with("NA |"), "row for {metric}: {row}");
    }
}

#[test]
fn markdown_missing_optionals_render_as_dash() {
    let record = BenchmarkRecord {
        running_time: q(1.0),
        max_rss: Some(q(10.0)),
        max_vms: Some(q(20.0)),
        max_uss: Some(q(8.0)),
        max_pss: None,
        io_in: None,
        io_out: None,
        mean_load: q(0.0),
        cpu_time: q(0.0),
        major_page_faults: None,
        minor_page_faults: None,
        voluntary_ctx_switches: None,
        involuntary_ctx_switches: None,
        peak_n_threads: None,
        peak_n_procs: 1,
        loadavg_1m_start: None,
        loadavg_1m_end: None,
        max_swap: None,
        page_cache_start: None,
        page_cache_end: None,
        data_collected: true,
    };
    let doc = record.to_markdown_document(SchemaMode::Full);
    for metric in [
        "max_pss",
        "io_in",
        "io_out",
        "major_page_faults",
        "minor_page_faults",
        "voluntary_ctx_switches",
        "involuntary_ctx_switches",
        "peak_n_threads",
        "loadavg_1m_start",
        "loadavg_1m_end",
        "max_swap",
        "page_cache_start",
        "page_cache_end",
    ] {
        let row = doc.lines().find(|l| l.contains(metric)).expect("metric row");
        assert!(row.contains(" - "), "expected dash in {metric} row: {row}");
    }
}

#[test]
fn markdown_full_row_count_tracks_tsv_header_full() {
    let record =
        BenchmarkRecord { running_time: q(0.5), data_collected: false, ..Default::default() };
    let doc = record.to_markdown_document(SchemaMode::Full);
    // header + alignment + one data row per column in TSV_HEADER_FULL.
    let expected_rows = 2 + TSV_HEADER_FULL.split('\t').count();
    assert_eq!(doc.lines().count(), expected_rows);
}

// ---- further cases ----

#[test]
fn summary_line_formats_every_field() {
    let record = BenchmarkRecord { io_in: Some(q(1.26)), ..full_record() };
    assert_eq!(
        record.summary_line(),
        "wall=12.35s cpu=21.60s mean_load=175% max_rss=101.5MiB max_uss=95.2MiB io_in=1.3MiB io_out=0.5MiB"
    );
}

#[test]
fn summary_line_renders_missing_sizes_as_dash() {
    let record = BenchmarkRecord { running_time: q(2.0), ..Default::default() };
    assert_eq!(
        record.summary_line(),
        "wall=2.00s cpu=0.00s mean_load=0% max_rss=- max_uss=- io_in=- io_out=-"
    );
}

#[test]
fn optional_cells_render_value_or_dash() {
    assert_eq!(format_optional_float(&Some(q(3.14159))), "3.14");
    assert_eq!(format_optional_float(&None), "-");
    assert_eq!(format_optional_u64(Some(0)), "0");
    assert_eq!(format_optional_u64(Some(18_446_744_073_709_551_615)), "18446744073709551615");
    assert_eq!(format_optional_u64(None), "-");
}

#[test]
fn hms_pads_minutes_and_seconds_but_not_hours() {
    assert_eq!(format_hms(&q(36_005.0)), "10:00:05");
    assert_eq!(format_hms(&q(86_399.0)), "23:59:59");
    assert_eq!(format_hms(&q(-5.0)), "0:00:00");
    assert_eq!(format_hms(&q(86_400.0 * 10.0 + 61.0)), "10 days, 0:01:01");
}

#[test]
fn strict_row_is_prefix_of_full_row() {
    let record = full_record();
    let strict = record.to_tsv_row(SchemaMode::SnakemakeStrict);
    let full = record.to_tsv_row(SchemaMode::Full);
    assert!(full.starts_with(&format!("{strict}\t")));
}

#[test]
fn rows_match_headers_in_both_modes() {
    for record in [full_record(), BenchmarkRecord::default()] {
        for mode in [SchemaMode::Full, SchemaMode::SnakemakeStrict] {
            let row = record.to_tsv_row(mode);
            assert_eq!(row.split('\t').count(), tsv_header(mode).split('\t').count());
        }
    }
    let tick = TickRecord::default();
    assert_eq!(tick.to_tsv_row().split('\t').count(), TRACE_TSV_HEADER.split('\t').count());
}

#[test]
fn markdown_lines_all_have_the_same_width() {
    for mode in [SchemaMode::Full, SchemaMode::SnakemakeStrict] {
        let doc = full_record().to_markdown_document(mode);
        let widths: Vec<usize> = doc.lines().map(|l| l.len()).collect();
        assert!(widths.iter().all(|w| *w == widths[0]), "uneven table: {doc}");
        assert!(doc.ends_with('\n'));
    }
}

#[test]
fn markdown_widens_value_column_for_long_cells() {
    let record = BenchmarkRecord { running_time: q(86_400.0 * 3.0), ..Default::default() };
    let doc = record.to_markdown_document(SchemaMode::SnakemakeStrict);
    let mut lines = doc.lines();
    assert_eq!(lines.next(), Some("| metric    |           value |"));
    assert_eq!(lines.next(), Some("|:----------|----------------:|"));
    assert_eq!(lines.next(), Some("| s         |     259200.0000 |"));
    assert_eq!(lines.next(), Some("| h:m:s     | 3 days, 0:00:00 |"));
    assert_eq!(lines.next(), Some("| max_rss   |              NA |"));
}

#[test]
fn tsv_document_is_header_row_and_newlines() {
    let record = full_record();
    for mode in [SchemaMode::Full, SchemaMode::SnakemakeStrict] {
        assert_eq!(
            record.to_tsv_document(mode),
            format!("{}\n{}\n", tsv_header(mode), record.to_tsv_row(mode))
        );
    }
}

#[test]
fn default_mode_is_full() {
    assert_eq!(SchemaMode::default(), SchemaMode::Full);
}

#[test]
fn markdown_cells_match_tsv_cells() {
    let mut no_data = full_record();
    no_data.data_collected = false;
    for record in [full_record(), no_data] {
        for mode in [SchemaMode::Full, SchemaMode::SnakemakeStrict] {
            let doc = record.to_markdown_document(mode);
            let pairs: Vec<(String, String)> = doc
                .lines()
                .skip(2)
                .map(|l| {
                    let parts: Vec<&str> = l.split('|').map(str::trim).collect();
                    (parts[1].to_string(), parts[2].to_string())
                })
                .collect();
            let header: Vec<&str> = tsv_header(mode).split('\t').collect();
            let row = record.to_tsv_row(mode);
            let cells: Vec<&str> = row.split('\t').collect();
            assert_eq!(pairs.len(), header.len());
            for (i, (metric, value)) in pairs.iter().enumerate() {
                assert_eq!(metric, header[i]);
                assert_eq!(value, cells[i]);
            }
        }
    }
}

fn text(s: &str) -> String {
    s.to_string()
}

#[test]
fn quantity_accepts_float_renderings() {
    for v in [0.0, -1.5, 1e300, f64::NAN, f64::INFINITY, f64::NEG_INFINITY, 5e-324] {
        let q = q(v);
        assert_eq!(q.fixed2, format!("{v:.2}"));
    }
}

#[test]
fn quantity_rejects_text_the_reports_reserve() {
    let ok = || text("1.00");
    for bad in ["", "-", "NA", "1\t2", "1\n", "1 2", "\u{e9}"] {
        assert!(Quantity::new(text(bad), ok(), ok(), ok(), ok(), 1).is_none(), "{bad:?}");
        assert!(Quantity::new(ok(), ok(), ok(), text(bad), ok(), 1).is_none(), "{bad:?}");
    }
    assert!(Quantity::new(ok(), ok(), ok(), ok(), text(&"9".repeat(401)), 1).is_none());
    assert!(Quantity::new(ok(), ok(), ok(), ok(), text(&"9".repeat(400)), 1).is_some());
    assert!(Quantity::new(text("-0"), text("NaN"), ok(), ok(), ok(), 0).is_some());
}

#[test]
fn measured_row_shows_dash_only_for_missing_and_no_na() {
    let record = BenchmarkRecord { max_pss: None, minor_page_faults: None, ..full_record() };
    let row = record.to_tsv_row(SchemaMode::Full);
    let cells: Vec<&str> = row.split('\t').collect();
    let header: Vec<&str> = TSV_HEADER_FULL.split('\t').collect();
    assert_eq!(cells.len(), header.len());
    assert!(!row.contains('\n'));
    for (name, cell) in header.iter().zip(cells.iter()) {
        assert_ne!(*cell, "NA");
        assert!(!cell.is_empty());
        assert_eq!(*cell == "-", *name == "max_pss" || *name == "minor_page_faults", "{name}");
    }
}

#[test]
fn summary_and_trace_rows_are_single_lines() {
    assert!(!full_record().summary_line().contains('\n'));
    let tick = TickRecord { elapsed: q(f64::NAN), ..TickRecord::default() };
    let row = tick.to_tsv_row();
    assert!(!row.contains('\n'));
    assert!(row.split('\t').all(|c| !c.is_empty() && c != "NA"));
    assert_eq!(row.split('\t').count(), 15);
}
