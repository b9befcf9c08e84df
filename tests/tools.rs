use devtools::tools::base64_converter::{decode_to_text, trim_line_ends_exec, Base64Converter, Message as B64};
use devtools::tools::json_beautifier::{JsonBeautifier, Message as Json};
use devtools::tools::random_data_generator::RandomDataGenerator;
use devtools::tools::uuid_generator::{
    generate_result, join_uuids, parse_u32, wrap_with_quotes, Effect, Message as Uuid, Quotes, UuidGenerator, Version,
};

fn is_uuid(s: &str, version: char) -> bool {
    let c: Vec<char> = s.chars().collect();
    c.len() == 36
        && c.iter().enumerate().all(|(k, ch)| {
            if [8, 13, 18, 23].contains(&k) {
                *ch == '-'
            } else {
                ch.is_ascii_hexdigit() && !ch.is_ascii_uppercase()
            }
        })
        && c[14] == version
}

#[test]
fn quotes_wrap_text() {
    assert_eq!(wrap_with_quotes("x".to_string(), None), "x");
    assert_eq!(wrap_with_quotes("x".to_string(), Some(Quotes::NoQuotes)), "x");
    assert_eq!(wrap_with_quotes("x".to_string(), Some(Quotes::SingleQuotes)), "'x'");
    assert_eq!(wrap_with_quotes("x".to_string(), Some(Quotes::DoubleQuotes)), "\"x\"");
}

#[test]
fn join_quotes_and_separates() {
    let ids = vec!["a".to_string(), "b".to_string(), "c".to_string()];
    assert_eq!(join_uuids(&ids, Some(Quotes::DoubleQuotes), true), "\"a\",\n\"b\",\n\"c\"");
    assert_eq!(join_uuids(&ids, None, false), "a\nb\nc");
    assert_eq!(join_uuids(&vec!["a".to_string()], Some(Quotes::SingleQuotes), true), "'a'");
    assert_eq!(join_uuids(&Vec::new(), None, true), "");
}

#[test]
fn generates_requested_amount_of_v4() {
    let out = generate_result(3, Some(Version::V4), Some(Quotes::SingleQuotes), true);
    let lines: Vec<&str> = out.split(",\n").collect();
    assert_eq!(lines.len(), 3);
    for l in lines {
        assert!(l.starts_with('\'') && l.ends_with('\''));
        assert!(is_uuid(&l[1..l.len() - 1], '4'));
    }
}

#[test]
fn generates_v7_and_defaults_to_v4() {
    let out = generate_result(2, Some(Version::V7), None, false);
    for l in out.split('\n') {
        assert!(is_uuid(l, '7'));
    }
    let out = generate_result(1, None, None, false);
    assert!(is_uuid(&out, '4'));
}

#[test]
fn amount_parsing() {
    let mut g = UuidGenerator::new();
    assert_eq!(g.parsed_amount, 1);
    g.update(Uuid::AmountChanged("+25".to_string()));
    assert_eq!(g.parsed_amount, 25);
    assert_eq!(g.parsing_error, "");
    assert!(g.can_display());
    g.update(Uuid::AmountChanged("abc".to_string()));
    assert_eq!(g.parsing_error, "Cannot parse 'abc'");
    assert_eq!(g.raw_amount, "abc");
    assert_eq!(g.parsed_amount, 25);
    assert!(!g.can_display());
    assert!(!g.can_export());
    g.update(Uuid::AmountChanged("0".to_string()));
    assert_eq!(g.parsing_error, "Amount must be at least 1 '0'");
    g.update(Uuid::AmountChanged("1001".to_string()));
    assert_eq!(g.parsing_error, "");
    assert!(!g.can_display());
    assert!(g.can_export());
    g.update(Uuid::AmountChanged("99999999999".to_string()));
    assert_eq!(g.parsing_error, "Cannot parse '99999999999'");
}

#[test]
fn generator_settings_and_output() {
    let mut g = UuidGenerator::new();
    assert_eq!(g.title(), "UUID Generator");
    assert_eq!(g.update(Uuid::Selected(Version::V7)), Effect::Nothing);
    g.update(Uuid::QuotesSelected(Quotes::DoubleQuotes));
    g.update(Uuid::CommaSelected(true));
    g.update(Uuid::UuidList("x".to_string()));
    assert_eq!(g.output, "x");
    assert_eq!(g.selected_version, Some(Version::V7));
    assert_eq!(g.selected_quotes, Some(Quotes::DoubleQuotes));
    assert!(g.is_separated_by_comma);
    assert_eq!(g.update(Uuid::FilePicked(Some(true))), Effect::Nothing);
}

#[test]
fn labels() {
    assert_eq!(Version::V4.to_string(), "Version 4");
    assert_eq!(Version::V7.to_string(), "Version 7");
    assert_eq!(Quotes::SingleQuotes.to_string(), "Single Quotes");
    assert_eq!(Version::all(), vec![Version::V4, Version::V7]);
    assert_eq!(Quotes::all().len(), 3);
}

#[test]
fn base64_encodes_trimmed_text() {
    let mut b = Base64Converter::new();
    assert_eq!(b.title(), "Base64 Converter");
    b.update(B64::DecodedTextChanged("hello\r\n".to_string()));
    assert_eq!(b.decoded_input, "hello\r\n");
    assert_eq!(b.encoded_input, "aGVsbG8=");
}

#[test]
fn base64_decodes_valid_text() {
    let mut b = Base64Converter::new();
    b.update(B64::EncodedTextChanged("aGk=\n".to_string()));
    assert_eq!(b.decoded_input, "hi");
    assert_eq!(b.encoded_input, "aGk=\n");
}

#[test]
fn base64_ignores_invalid_input() {
    let mut b = Base64Converter::new();
    b.update(B64::DecodedTextChanged("keep".to_string()));
    b.update(B64::EncodedTextChanged("not base64!".to_string()));
    assert_eq!(b.decoded_input, "keep");
    b.update(B64::EncodedTextChanged("/w==".to_string()));
    assert_eq!(b.decoded_input, "keep");
    assert_eq!(decode_to_text("/w=="), None);
    assert_eq!(decode_to_text("aGk="), Some("hi".to_string()));
}

#[test]
fn trims_only_trailing_line_ends() {
    assert_eq!(trim_line_ends_exec("a\r\n\n"), "a");
    assert_eq!(trim_line_ends_exec("\na b"), "\na b");
    assert_eq!(trim_line_ends_exec("\r\n"), "");
}

#[test]
fn json_pretty_prints_objects() {
    let mut j = JsonBeautifier::new();
    assert_eq!(j.title(), "JSON Beautifier");
    assert_eq!(j.output_content, "{}");
    j.update(Json::InputChanged("{\"a\":1}".to_string()));
    assert_eq!(j.error_text, None);
    assert_eq!(j.output_content, "{\n  \"a\": 1\n}");
}

#[test]
fn json_reports_errors_and_keeps_output() {
    let mut j = JsonBeautifier::new();
    j.update(Json::InputChanged("{\"a\":[true]}".to_string()));
    j.update(Json::InputChanged("[1, 2]".to_string()));
    assert!(j.error_text.is_some());
    assert_eq!(j.output_content, "{\n  \"a\": [\n    true\n  ]\n}");
    assert_eq!(j.input_content, "[1, 2]");
    j.update(Json::IndentationChanged(2));
    assert_eq!(j.indentation, 2);
}

#[test]
fn random_data_generator_has_its_name() {
    let r = RandomDataGenerator::new();
    assert_eq!(r.title(), "Random Data Generator");
}

#[test]
fn parses_decimal_u32() {
    assert_eq!(parse_u32("0"), Some(0));
    assert_eq!(parse_u32("+42"), Some(42));
    assert_eq!(parse_u32("007"), Some(7));
    assert_eq!(parse_u32("4294967295"), Some(u32::MAX));
    assert_eq!(parse_u32("4294967296"), None);
    assert_eq!(parse_u32(""), None);
    assert_eq!(parse_u32("+"), None);
    assert_eq!(parse_u32("-1"), None);
    assert_eq!(parse_u32(" 1"), None);
    assert_eq!(parse_u32("12a"), None);
    assert_eq!(parse_u32("99999999999x"), None);
}

#[test]
fn json_object_after_error_clears_it() {
    let mut j = JsonBeautifier::new();
    j.update(Json::InputChanged("{".to_string()));
    assert!(j.error_text.is_some());
    j.update(Json::InputChanged("{\"b\": null}".to_string()));
    assert_eq!(j.error_text, None);
    assert_eq!(j.output_content, "{\n  \"b\": null\n}");
}
