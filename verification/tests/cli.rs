use tricord::cli::{log_level, Format, LogLevel};
use tricord::format::OutputFormat;

#[test]
fn log_level_scales_with_verbosity() {
    // `-vv` counts as two.
    assert_eq!(log_level(2), LogLevel::Debug);
}

#[test]
fn log_level_steps_from_warn_to_trace() {
    assert_eq!(log_level(0), LogLevel::Warn);
    assert_eq!(log_level(1), LogLevel::Info);
    assert_eq!(log_level(3), LogLevel::Trace);
    assert_eq!(log_level(255), LogLevel::Trace);
}

#[test]
fn format_flag_selects_output_format() {
    assert_eq!(OutputFormat::from(Format::Tsv), OutputFormat::Tsv);
    assert_eq!(OutputFormat::from(Format::Json), OutputFormat::Json);
    assert_eq!(OutputFormat::from(Format::JsonPretty), OutputFormat::JsonPretty);
}
