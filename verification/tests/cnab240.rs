use fixedwidth::cnab240::parsers::{
    header_arquivo, header_lote, segmento_d, trailer_arquivo, trailer_lote,
};
use fixedwidth::default_parsers::cnab240_segment_d_parser;
use fixedwidth::parsers::custodia_de_cheques;
use fixedwidth::FixedLengthParser;

fn assert_covers_whole_record(parser: &FixedLengthParser<240>, expected_fields: usize) {
    let fields = parser.fields();
    assert_eq!(fields.len(), expected_fields);
    assert_eq!(fields[0].start, 0);
    for i in 1..fields.len() {
        assert_eq!(fields[i].start, fields[i - 1].start + fields[i - 1].length);
    }
    let last = &fields[fields.len() - 1];
    assert_eq!(last.start + last.length, 240);
}

#[test]
fn segment_d_schema_decodes_zero_filled_record() {
    let parser = segmento_d().unwrap();
    let mut buf = [b'0'; 240];
    buf[13] = b'D';
    let record = parser.parse(&buf);
    assert_eq!(record.get("segmento").unwrap().as_str(), "D");
    assert_eq!(record.get("banco").unwrap().as_str(), "000");
}

#[test]
fn segment_d_field_table_covers_whole_record() {
    let parser = segmento_d().unwrap();
    assert_covers_whole_record(&parser, 27);
    let fields = parser.fields();
    assert_eq!(fields[4].name, "segmento");
    assert_eq!(fields[4].start, 13);
    assert_eq!(fields[4].length, 1);
}

#[test]
fn header_arquivo_covers_whole_record() {
    assert_covers_whole_record(&header_arquivo().unwrap(), 24);
}

#[test]
fn trailer_arquivo_covers_whole_record() {
    assert_covers_whole_record(&trailer_arquivo().unwrap(), 8);
}

#[test]
fn header_lote_covers_whole_record() {
    assert_covers_whole_record(&header_lote().unwrap(), 20);
}

#[test]
fn trailer_lote_covers_whole_record() {
    assert_covers_whole_record(&trailer_lote().unwrap(), 12);
}

#[test]
fn hand_written_segment_d_matches_table_driven_schema() {
    let from_table = segmento_d().unwrap();
    let chained = cnab240_segment_d_parser().unwrap();
    let custodia = custodia_de_cheques::cnab240_segment_d_parser().unwrap();
    let mut buf = [b'0'; 240];
    buf[13] = b'D';
    buf[0] = b'3';
    assert_eq!(from_table.parse(&buf), chained.parse(&buf));
    assert_eq!(from_table.parse(&buf), custodia.parse(&buf));
}

#[test]
fn hand_written_header_lote_matches_table_driven_schema() {
    let from_table = header_lote().unwrap();
    let chained = custodia_de_cheques::cnab240_header_lote_registro_1_parser().unwrap();
    let buf = [b'5'; 240];
    assert_eq!(from_table.parse(&buf), chained.parse(&buf));
}

#[test]
fn hand_written_trailer_lote_matches_table_driven_schema() {
    let from_table = trailer_lote().unwrap();
    let chained = custodia_de_cheques::cnab240_trailer_lote_registro_5_parser().unwrap();
    let buf = [b'9'; 240];
    assert_eq!(from_table.parse(&buf), chained.parse(&buf));
}
