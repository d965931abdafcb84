use tricord::format::OutputFormat;

#[test]
fn extension_matches_each_format() {
    assert_eq!(OutputFormat::Tsv.extension(), "tsv");
    assert_eq!(OutputFormat::Json.extension(), "json");
    assert_eq!(OutputFormat::JsonPretty.extension(), "json");
}
