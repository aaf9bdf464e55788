use fixedwidth::error::ParseError;
use fixedwidth::{Alignment, FixedLengthParserBuilder};

#[test]
fn build_succeeds_and_fields_are_contiguous() {
    let parser = FixedLengthParserBuilder::<240>::new()
        .add_field("a", 3, '0', Alignment::Right)
        .unwrap()
        .add_field("b", 4, '0', Alignment::Right)
        .unwrap()
        .add_field("c", 1, ' ', Alignment::Left)
        .unwrap()
        .build()
        .unwrap();
    let fields = parser.fields();
    assert_eq!(fields.len(), 3);
    for i in 1..fields.len() {
        assert_eq!(fields[i].start, fields[i - 1].start + fields[i - 1].length);
    }
    assert_eq!(fields[0].start, 0);
}

#[test]
fn offsets_are_stable_across_reuse() {
    let parser = FixedLengthParserBuilder::<240>::new()
        .add_field("a", 3, '0', Alignment::Right)
        .unwrap()
        .add_field("b", 4, '0', Alignment::Right)
        .unwrap()
        .add_field("c", 1, ' ', Alignment::Left)
        .unwrap()
        .build()
        .unwrap();
    let buf = [b'7'; 240];
    for _ in 0..3 {
        let _ = parser.parse(&buf);
        let fields = parser.fields();
        assert_eq!(fields[0].name, "a");
        assert_eq!(fields[0].start, 0);
        assert_eq!(fields[1].name, "b");
        assert_eq!(fields[1].start, 3);
        assert_eq!(fields[2].name, "c");
        assert_eq!(fields[2].start, 7);
    }
}

#[test]
fn single_field_may_fill_the_record() {
    let builder = FixedLengthParserBuilder::<10>::new()
        .add_field("whole", 10, ' ', Alignment::Left)
        .unwrap();
    let err = builder.add_field("extra", 1, ' ', Alignment::Left).unwrap_err();
    assert_eq!(
        err,
        ParseError::FieldOutOfBound { field: "extra", position: (10, 1), max: 10 }
    );
}

#[test]
fn out_of_bound_field_reports_cursor_and_length() {
    let builder = FixedLengthParserBuilder::<10>::new()
        .add_field("head", 4, '0', Alignment::Right)
        .unwrap();
    let err = builder.add_field("tail", 7, '0', Alignment::Right).unwrap_err();
    assert_eq!(
        err,
        ParseError::FieldOutOfBound { field: "tail", position: (4, 7), max: 10 }
    );
}

#[test]
fn more_fields_than_bytes_is_invalid_length() {
    let mut builder = FixedLengthParserBuilder::<10>::new();
    let names = ["f0", "f1", "f2", "f3", "f4", "f5", "f6", "f7", "f8", "f9", "f10"];
    for name in names {
        builder = builder.add_field(name, 0, '0', Alignment::Right).unwrap();
    }
    let err = builder.build().unwrap_err();
    assert_eq!(err, ParseError::InvalidLength { expected: 10, actual: 11 });
}

#[test]
fn out_of_bound_message_names_field_and_position() {
    let err = ParseError::FieldOutOfBound { field: "tail", position: (4, 7), max: 10 };
    assert_eq!(err.message(), "Field tail out of bound: (4, 7)/10");
}

#[test]
fn invalid_length_message_names_both_counts() {
    let err = ParseError::InvalidLength { expected: 10, actual: 11 };
    assert_eq!(err.message(), "Invalid length parser, expected 10, got 11");
}

#[test]
fn messages_render_multi_digit_numbers() {
    let err = ParseError::FieldOutOfBound { field: "cnab_reservado_2", position: (230, 105), max: 240 };
    assert_eq!(err.message(), "Field cnab_reservado_2 out of bound: (230, 105)/240");
}

#[test]
fn default_builder_builds_an_empty_schema() {
    let parser = FixedLengthParserBuilder::<5>::default().build().unwrap();
    assert_eq!(parser.fields().len(), 0);
}

#[test]
fn under_filled_layout_still_builds() {
    let parser = FixedLengthParserBuilder::<10>::new()
        .add_field("only", 2, ' ', Alignment::Left)
        .unwrap()
        .build()
        .unwrap();
    assert_eq!(parser.fields().len(), 1);
}
