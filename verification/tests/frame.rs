use telemetry_collector::messaging::data_types::{DataValue, RawDataPoint, Timestamp};
use telemetry_collector::messaging::errors::{CodecError, Fault, Field};
use telemetry_collector::messaging::frame::{measured_frame, write_frame};
use telemetry_collector::messaging::parse::read_frame;

fn small(value: DataValue) -> RawDataPoint {
    RawDataPoint {
        location: "a".to_string(),
        path: "bc".to_string(),
        component: "é".to_string(),
        timestamp: Timestamp { seconds: 1, nanos: 2 },
        value,
    }
}

/// The first 33 bytes of the frame of every `small` record.
fn small_head() -> Vec<u8> {
    let mut head = vec![1, 0, 0, 0, b'a'];
    head.extend_from_slice(&[2, 0, 0, 0, b'b', b'c']);
    head.extend_from_slice(&[2, 0, 0, 0, 0xc3, 0xa9]);
    head.extend_from_slice(&[1, 0, 0, 0, 0, 0, 0, 0]);
    head.extend_from_slice(&[2, 0, 0, 0]);
    head
}

fn malformed(field: Field, fault: Fault) -> Result<RawDataPoint, CodecError> {
    Err(CodecError::MalformedField(field, fault))
}

#[test]
fn frame_of_a_bool() {
    let mut expected = small_head();
    expected.extend_from_slice(&[2, 1]);
    assert_eq!(write_frame(&small(DataValue::Bool(true))), Some(expected));
    let mut expected = small_head();
    expected.extend_from_slice(&[2, 0]);
    assert_eq!(write_frame(&small(DataValue::Bool(false))), Some(expected));
}

#[test]
fn frame_of_an_integer() {
    let mut expected = small_head();
    expected.extend_from_slice(&[0, 0xfe, 0xff, 0xff, 0xff, 0xff, 0xff, 0xff, 0xff]);
    assert_eq!(write_frame(&small(DataValue::Integer(-2))), Some(expected));
    let mut expected = small_head();
    expected.extend_from_slice(&[0, 0, 0, 0x10, 0, 0, 0, 0, 0]);
    assert_eq!(write_frame(&small(DataValue::Integer(1_048_576))), Some(expected));
}

#[test]
fn frame_of_a_float() {
    let mut expected = small_head();
    expected.push(1);
    expected.extend_from_slice(&1.5f64.to_le_bytes());
    assert_eq!(write_frame(&small(DataValue::Float(1.5f64.to_bits()))), Some(expected));
}

#[test]
fn frame_of_a_text() {
    let mut expected = small_head();
    expected.extend_from_slice(&[3, 2, 0, 0, 0, b'o', b'k']);
    assert_eq!(write_frame(&small(DataValue::Text("ok".to_string()))), Some(expected));
}

#[test]
fn frame_of_a_negative_second() {
    let mut r = small(DataValue::Bool(true));
    r.timestamp = Timestamp { seconds: -1, nanos: 0x0102_0304 };
    let frame = write_frame(&r).unwrap();
    assert_eq!(frame[17..25], [0xff; 8]);
    assert_eq!(frame[25..29], [4, 3, 2, 1]);
}

#[test]
fn measured_frame_counts_every_byte() {
    assert_eq!(measured_frame(&small(DataValue::Bool(true))), Some(31));
    assert_eq!(measured_frame(&small(DataValue::Integer(0))), Some(38));
    assert_eq!(measured_frame(&small(DataValue::Float(0))), Some(38));
    assert_eq!(measured_frame(&small(DataValue::Text("ok".to_string()))), Some(36));
    for value in [DataValue::Bool(false), DataValue::Text("héllo".to_string())] {
        let r = small(value);
        assert_eq!(measured_frame(&r), Some(write_frame(&r).unwrap().len()));
    }
}

#[test]
fn a_frame_reads_back() {
    for value in [
        DataValue::Integer(i64::MIN),
        DataValue::Float(f64::NAN.to_bits()),
        DataValue::Bool(true),
        DataValue::Text(String::new()),
        DataValue::Text("日本語".to_string()),
    ] {
        let r = small(value);
        assert_eq!(read_frame(&write_frame(&r).unwrap()), Ok(r));
    }
}

#[test]
fn a_cut_frame_names_the_field_that_was_cut() {
    let r = small(DataValue::Text("ok".to_string()));
    let frame = write_frame(&r).unwrap();
    assert_eq!(frame.len(), 36);
    for n in 0..frame.len() {
        let field = if n < 5 {
            Field::Location
        } else if n < 11 {
            Field::Path
        } else if n < 17 {
            Field::Component
        } else if n < 29 {
            Field::Timestamp
        } else {
            Field::Value
        };
        assert_eq!(read_frame(&frame[..n]), malformed(field, Fault::Truncated), "cut at {}", n);
    }
}

#[test]
fn an_empty_frame_lacks_its_location() {
    assert_eq!(read_frame(&[]), malformed(Field::Location, Fault::Truncated));
}

#[test]
fn trailing_bytes_are_refused() {
    let mut frame = write_frame(&small(DataValue::Bool(true))).unwrap();
    frame.push(0);
    assert_eq!(read_frame(&frame), malformed(Field::Value, Fault::TrailingBytes));
}

#[test]
fn empty_names_are_refused() {
    let mut r = small(DataValue::Bool(true));
    r.location = String::new();
    assert_eq!(read_frame(&write_frame(&r).unwrap()), malformed(Field::Location, Fault::Empty));
    let mut r = small(DataValue::Bool(true));
    r.path = String::new();
    assert_eq!(read_frame(&write_frame(&r).unwrap()), malformed(Field::Path, Fault::Empty));
    let mut r = small(DataValue::Bool(true));
    r.component = String::new();
    assert_eq!(read_frame(&write_frame(&r).unwrap()), malformed(Field::Component, Fault::Empty));
}

#[test]
fn invalid_utf8_is_refused() {
    let mut frame = write_frame(&small(DataValue::Text("ok".to_string()))).unwrap();
    frame[4] = 0xff;
    assert_eq!(read_frame(&frame), malformed(Field::Location, Fault::InvalidUtf8));
    let mut frame = write_frame(&small(DataValue::Text("ok".to_string()))).unwrap();
    frame[16] = b'x';
    assert_eq!(read_frame(&frame), malformed(Field::Component, Fault::InvalidUtf8));
    let mut frame = write_frame(&small(DataValue::Text("ok".to_string()))).unwrap();
    frame[35] = 0x80;
    assert_eq!(read_frame(&frame), malformed(Field::Value, Fault::InvalidUtf8));
}

#[test]
fn nanoseconds_out_of_range_are_refused() {
    let mut r = small(DataValue::Bool(true));
    r.timestamp.nanos = 2_000_000_000;
    assert_eq!(
        read_frame(&write_frame(&r).unwrap()),
        malformed(Field::Timestamp, Fault::NanosOutOfRange)
    );
    r.timestamp.nanos = u32::MAX;
    assert_eq!(
        read_frame(&write_frame(&r).unwrap()),
        malformed(Field::Timestamp, Fault::NanosOutOfRange)
    );
    r.timestamp.nanos = 1_999_999_999;
    assert_eq!(read_frame(&write_frame(&r).unwrap()), Ok(r));
}

#[test]
fn unknown_tags_are_refused() {
    for tag in [4u8, 5, 0x7f, 0xff] {
        let mut frame = small_head();
        frame.push(tag);
        frame.extend_from_slice(&[0; 8]);
        assert_eq!(read_frame(&frame), malformed(Field::Value, Fault::UnknownTag));
    }
}

#[test]
fn booleans_other_than_0_and_1_are_refused() {
    for payload in [2u8, 0x80, 0xff] {
        let mut frame = small_head();
        frame.extend_from_slice(&[2, payload]);
        assert_eq!(read_frame(&frame), malformed(Field::Value, Fault::InvalidBool));
    }
}

#[test]
fn a_count_beyond_the_buffer_is_a_truncation() {
    let mut frame = write_frame(&small(DataValue::Bool(true))).unwrap();
    frame[0] = 0xff;
    frame[1] = 0xff;
    frame[2] = 0xff;
    frame[3] = 0xff;
    assert_eq!(read_frame(&frame), malformed(Field::Location, Fault::Truncated));
}
