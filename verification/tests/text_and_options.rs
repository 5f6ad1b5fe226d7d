use data_agent::format::SourceKind;
use data_agent::options::{reader_for, LoadOptions, Reader, Scan, COMMA, TAB};
use data_agent::text::{chars_of, decimal_string, spells};

#[test]
fn decimal_numerals() {
    assert_eq!(decimal_string(0), "0");
    assert_eq!(decimal_string(7), "7");
    assert_eq!(decimal_string(10), "10");
    assert_eq!(decimal_string(404), "404");
    assert_eq!(decimal_string(1_048_576), "1048576");
    assert_eq!(decimal_string(u64::MAX), "18446744073709551615");
}

#[test]
fn characters_of_a_string() {
    assert_eq!(chars_of(""), Vec::<char>::new());
    assert_eq!(chars_of("a.b"), vec!['a', '.', 'b']);
    assert_eq!(chars_of("é表"), vec!['é', '表']);
}

#[test]
fn spelling_is_exact() {
    assert!(spells(&vec!['c', 's', 'v'], "csv"));
    assert!(!spells(&vec!['c', 's', 'v'], "csvx"));
    assert!(!spells(&vec!['c', 's'], "csv"));
    assert!(!spells(&vec!['C', 's', 'v'], "csv"));
    assert!(spells(&Vec::new(), ""));
}

#[test]
fn default_options_by_kind() {
    let csv = LoadOptions::for_kind(SourceKind::Csv);
    assert!(csv.has_header);
    assert_eq!(csv.delimiter, b',');
    assert_eq!(csv.infer_schema_depth, None);
    let tsv = LoadOptions::for_kind(SourceKind::Tsv);
    assert!(tsv.has_header);
    assert_eq!(tsv.delimiter, b'\t');
    assert_eq!(tsv.infer_schema_depth, None);
    let parquet = LoadOptions::for_kind(SourceKind::Parquet);
    assert_eq!(parquet.delimiter, b',');
    assert_eq!(COMMA, b',');
    assert_eq!(TAB, b'\t');
    let plain = LoadOptions::default();
    assert!(plain.has_header);
    assert_eq!(plain.delimiter, b',');
    assert_eq!(plain.infer_schema_depth, None);
}

#[test]
fn readers_follow_kind_and_options() {
    let options = LoadOptions { has_header: false, delimiter: b';', infer_schema_depth: Some(25) };
    match reader_for(SourceKind::Csv, options) {
        Reader::Deferred(Scan::Delimited { has_header, delimiter, infer_schema_depth }) => {
            assert!(!has_header);
            assert_eq!(delimiter, b';');
            assert_eq!(infer_schema_depth, Some(25));
        },
        other => panic!("unexpected reader {:?}", other),
    }
    match reader_for(SourceKind::Tsv, LoadOptions::for_kind(SourceKind::Tsv)) {
        Reader::Deferred(Scan::Delimited { has_header, delimiter, infer_schema_depth }) => {
            assert!(has_header);
            assert_eq!(delimiter, b'\t');
            assert_eq!(infer_schema_depth, None);
        },
        other => panic!("unexpected reader {:?}", other),
    }
    assert!(matches!(
        reader_for(SourceKind::JsonLines, options),
        Reader::Deferred(Scan::JsonLines { infer_schema_depth: Some(25) })
    ));
    assert!(matches!(
        reader_for(SourceKind::Json, options),
        Reader::Deferred(Scan::JsonLines { infer_schema_depth: Some(25) })
    ));
    assert!(matches!(reader_for(SourceKind::Parquet, options), Reader::Deferred(Scan::Parquet)));
    assert!(matches!(reader_for(SourceKind::Xlsx, options), Reader::Workbook));
    assert!(matches!(
        reader_for(SourceKind::UnknownDefaultsToCsv, options),
        Reader::Deferred(Scan::Delimited { has_header: false, delimiter: b';', .. })
    ));
}

#[test]
fn json_lines_are_scanned_whole_at_depth_zero() {
    let options = LoadOptions { has_header: true, delimiter: b',', infer_schema_depth: Some(0) };
    assert!(matches!(
        reader_for(SourceKind::JsonLines, options),
        Reader::Deferred(Scan::JsonLines { infer_schema_depth: None })
    ));
    assert!(matches!(
        reader_for(SourceKind::Csv, options),
        Reader::Deferred(Scan::Delimited { infer_schema_depth: Some(0), .. })
    ));
}
