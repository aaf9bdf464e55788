use fixedwidth::record::DecodedRecord;
use fixedwidth::{Alignment, FixedLengthParser, FixedLengthParserBuilder};

#[test]
fn decoded_value_keeps_padding_untrimmed() {
    let parser = FixedLengthParserBuilder::<5>::new()
        .add_field("text", 5, ' ', Alignment::Left)
        .unwrap()
        .build()
        .unwrap();
    let buf = *b"AB   ";
    let record = parser.parse(&buf);
    assert_eq!(record.get("text").unwrap().as_str(), "AB   ");
}

#[test]
fn decoding_twice_yields_identical_mappings() {
    let parser = FixedLengthParserBuilder::<8>::new()
        .add_field("left", 3, '0', Alignment::Right)
        .unwrap()
        .add_field("right", 5, ' ', Alignment::Left)
        .unwrap()
        .build()
        .unwrap();
    let buf = *b"007xy  z";
    let first = parser.parse(&buf);
    let second = parser.parse(&buf);
    assert_eq!(first, second);
    assert_eq!(first.get("left").unwrap().as_str(), "007");
    assert_eq!(first.get("right").unwrap().as_str(), "xy  z");
}

#[test]
fn malformed_bytes_decode_to_replacement_text() {
    let parser = FixedLengthParserBuilder::<2>::new()
        .add_field("raw", 2, ' ', Alignment::Left)
        .unwrap()
        .build()
        .unwrap();
    let buf: [u8; 2] = [0xFF, b'A'];
    let record = parser.parse(&buf);
    assert_eq!(record.get("raw").unwrap().as_str(), "\u{FFFD}A");
}

#[test]
fn duplicate_field_name_keeps_the_later_value() {
    let parser = FixedLengthParserBuilder::<2>::new()
        .add_field("x", 1, ' ', Alignment::Left)
        .unwrap()
        .add_field("x", 1, ' ', Alignment::Left)
        .unwrap()
        .build()
        .unwrap();
    let buf = *b"AB";
    let record = parser.parse(&buf);
    assert_eq!(record.get("x").unwrap().as_str(), "B");
}

#[test]
fn absent_name_decodes_to_none() {
    let parser = FixedLengthParserBuilder::<2>::new()
        .add_field("x", 2, ' ', Alignment::Left)
        .unwrap()
        .build()
        .unwrap();
    let buf = *b"AB";
    let record = parser.parse(&buf);
    assert!(record.get("y").is_none());
}

#[test]
fn record_insert_overwrites_previous_binding() {
    let mut record = DecodedRecord::new();
    record.insert("k", "first".to_string());
    record.insert("k", "second".to_string());
    assert_eq!(record.get("k").unwrap().as_str(), "second");
}

#[test]
fn default_schema_decodes_to_empty_mapping() {
    let parser = FixedLengthParser::<4>::default();
    let buf = [b'0'; 4];
    let record = parser.parse(&buf);
    assert!(record.get("anything").is_none());
}
