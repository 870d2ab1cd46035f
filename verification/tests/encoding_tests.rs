use pgwire::api::results::{DataRowEncoder, FieldFormat, FieldInfo};
use pgwire::api::Type;
use std::sync::Arc;
use twenty_postgres_proxy::encoding::{encode_row, EncodedRow, MAX_FIELDS, MAX_FIELD_BYTES};

fn text(value: &str) -> Option<String> {
    Some(value.to_string())
}

#[test]
fn one_text_value_is_length_and_bytes() {
    let row = encode_row(&vec![text("1")]);
    assert_eq!(
        row,
        Some(EncodedRow { field_count: 1, data: vec![0, 0, 0, 1, b'1'] })
    );
}

#[test]
fn null_is_the_length_minus_one() {
    let row = encode_row(&vec![None]);
    assert_eq!(
        row,
        Some(EncodedRow { field_count: 1, data: vec![0xff, 0xff, 0xff, 0xff] })
    );
}

#[test]
fn empty_text_is_not_null() {
    let row = encode_row(&vec![text("")]);
    assert_eq!(
        row,
        Some(EncodedRow { field_count: 1, data: vec![0, 0, 0, 0] })
    );
    assert_ne!(encode_row(&vec![text("")]), encode_row(&vec![None]));
}

#[test]
fn values_follow_each_other_in_order() {
    let row = encode_row(&vec![text("ab"), None, text(""), text("xyz")]);
    assert_eq!(
        row,
        Some(EncodedRow {
            field_count: 4,
            data: vec![
                0, 0, 0, 2, b'a', b'b', 0xff, 0xff, 0xff, 0xff, 0, 0, 0, 0, 0, 0, 0, 3, b'x',
                b'y', b'z',
            ],
        })
    );
}

#[test]
fn row_without_values_is_empty() {
    assert_eq!(
        encode_row(&Vec::new()),
        Some(EncodedRow { field_count: 0, data: Vec::new() })
    );
}

#[test]
fn length_counts_bytes_of_the_text() {
    let row = encode_row(&vec![text("é日")]).unwrap();
    assert_eq!(row.field_count, 1);
    assert_eq!(row.data, vec![0, 0, 0, 5, 0xc3, 0xa9, 0xe6, 0x97, 0xa5]);
}

#[test]
fn length_is_big_endian() {
    let long = "x".repeat(0x0001_0203);
    let row = encode_row(&vec![Some(long)]).unwrap();
    assert_eq!(row.data.len(), 4 + 0x0001_0203);
    assert_eq!(&row.data[..4], &[0x00, 0x01, 0x02, 0x03]);
    assert!(row.data[4..].iter().all(|byte| *byte == b'x'));
}

#[test]
fn special_characters_are_not_quoted() {
    let row = encode_row(&vec![text("a \"b\" {c},\\")]).unwrap();
    let mut expected = vec![0, 0, 0, 11];
    expected.extend_from_slice("a \"b\" {c},\\".as_bytes());
    assert_eq!(row.data, expected);
}

#[test]
fn most_fields_that_fit() {
    let cells: Vec<Option<String>> = vec![None; MAX_FIELDS];
    let row = encode_row(&cells).unwrap();
    assert_eq!(row.field_count, 0x7fff);
    assert_eq!(row.data.len(), 4 * MAX_FIELDS);
    assert!(row.data.iter().all(|byte| *byte == 0xff));
}

#[test]
fn one_field_too_many_is_refused() {
    let cells: Vec<Option<String>> = vec![None; MAX_FIELDS + 1];
    assert_eq!(encode_row(&cells), None);
}

#[test]
fn limits_are_those_of_the_wire() {
    assert_eq!(MAX_FIELDS, i16::MAX as usize);
    assert_eq!(MAX_FIELD_BYTES, i32::MAX as usize);
}

#[test]
fn rows_are_independent_of_each_other() {
    let first = encode_row(&vec![text("a"), text("b")]).unwrap();
    let second = encode_row(&vec![text("c")]).unwrap();
    assert_eq!(first.field_count, 2);
    assert_eq!(second, EncodedRow { field_count: 1, data: vec![0, 0, 0, 1, b'c'] });
}

#[test]
fn same_bytes_as_a_schema_driven_encoder() {
    let schema = Arc::new(vec![
        FieldInfo::new("a".to_string(), None, None, Type::VARCHAR, FieldFormat::Text),
        FieldInfo::new("b".to_string(), None, None, Type::VARCHAR, FieldFormat::Text),
        FieldInfo::new("c".to_string(), None, None, Type::VARCHAR, FieldFormat::Text),
    ]);
    let cells = vec![text("hello"), None, text("")];
    let mut encoder = DataRowEncoder::new(schema);
    for cell in &cells {
        encoder.encode_field(cell).unwrap();
    }
    let theirs = encoder.take_row();
    let ours = encode_row(&cells).unwrap();
    assert_eq!(ours.field_count, theirs.field_count);
    assert_eq!(ours.data, theirs.data.to_vec());
}
