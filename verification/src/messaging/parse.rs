//! Reading a frame back, field by field.
//!
//! Each reader takes the bytes that are left and gives the field at their
//! head and the bytes behind it, or says what is wrong with the field.

use vstd::bytes::{
    spec_u32_from_le_bytes, spec_u64_from_le_bytes, u32_from_le_bytes, u64_from_le_bytes,
};
use vstd::prelude::*;
use vstd::slice::{slice_subrange, slice_to_vec};
use vstd::utf8::{decode_utf8, encode_utf8, valid_utf8};

use crate::messaging::data_types::{
    DataValue, DataValueView, RawDataPoint, RawDataPointView, Timestamp,
};
use crate::messaging::errors::{CodecError, Fault, Field};
use crate::messaging::frame::{TAG_BOOL, TAG_FLOAT, TAG_INTEGER, TAG_TEXT};

verus! {

/// The text at the head of `b`.
pub open spec fn read_text(b: Seq<u8>) -> Result<(Seq<char>, Seq<u8>), Fault> {
    if b.len() < 4 {
        Err(Fault::Truncated)
    } else {
        let count = spec_u32_from_le_bytes(b.subrange(0, 4)) as int;
        if b.len() - 4 < count {
            Err(Fault::Truncated)
        } else if !valid_utf8(b.subrange(4, 4 + count)) {
            Err(Fault::InvalidUtf8)
        } else {
            Ok((decode_utf8(b.subrange(4, 4 + count)), b.skip(4 + count)))
        }
    }
}

/// The text at the head of `b`, which must not be empty.
pub open spec fn read_name(b: Seq<u8>) -> Result<(Seq<char>, Seq<u8>), Fault> {
    match read_text(b) {
        Ok((s, rest)) => if s.len() == 0 {
            Err(Fault::Empty)
        } else {
            Ok((s, rest))
        },
        Err(f) => Err(f),
    }
}

/// The timestamp at the head of `b`.
pub open spec fn read_timestamp(b: Seq<u8>) -> Result<(Timestamp, Seq<u8>), Fault> {
    if b.len() < 12 {
        Err(Fault::Truncated)
    } else {
        let t = Timestamp {
            seconds: spec_u64_from_le_bytes(b.subrange(0, 8)) as i64,
            nanos: spec_u32_from_le_bytes(b.subrange(8, 12)),
        };
        if t.valid() {
            Ok((t, b.skip(12)))
        } else {
            Err(Fault::NanosOutOfRange)
        }
    }
}

/// The value at the head of `b`.
pub open spec fn read_value(b: Seq<u8>) -> Result<(DataValueView, Seq<u8>), Fault> {
    if b.len() < 1 {
        Err(Fault::Truncated)
    } else if b[0] == TAG_INTEGER {
        if b.len() < 9 {
            Err(Fault::Truncated)
        } else {
            Ok((DataValueView::Integer(spec_u64_from_le_bytes(b.subrange(1, 9)) as i64), b.skip(9)))
        }
    } else if b[0] == TAG_FLOAT {
        if b.len() < 9 {
            Err(Fault::Truncated)
        } else {
            Ok((DataValueView::Float(spec_u64_from_le_bytes(b.subrange(1, 9))), b.skip(9)))
        }
    } else if b[0] == TAG_BOOL {
        if b.len() < 2 {
            Err(Fault::Truncated)
        } else if b[1] == 0 {
            Ok((DataValueView::Bool(false), b.skip(2)))
        } else if b[1] == 1 {
            Ok((DataValueView::Bool(true), b.skip(2)))
        } else {
            Err(Fault::InvalidBool)
        }
    } else if b[0] == TAG_TEXT {
        match read_text(b.skip(1)) {
            Ok((s, rest)) => Ok((DataValueView::Text(s), rest)),
            Err(f) => Err(f),
        }
    } else {
        Err(Fault::UnknownTag)
    }
}

/// The record that a frame holds, or the first field that is missing or
/// malformed, and why. Nothing may follow the value.
pub open spec fn parse_frame(b: Seq<u8>) -> Result<RawDataPointView, CodecError> {
    match read_name(b) {
        Err(f) => Err(CodecError::MalformedField(Field::Location, f)),
        Ok((location, b1)) => match read_name(b1) {
            Err(f) => Err(CodecError::MalformedField(Field::Path, f)),
            Ok((path, b2)) => match read_name(b2) {
                Err(f) => Err(CodecError::MalformedField(Field::Component, f)),
                Ok((component, b3)) => match read_timestamp(b3) {
                    Err(f) => Err(CodecError::MalformedField(Field::Timestamp, f)),
                    Ok((timestamp, b4)) => match read_value(b4) {
                        Err(f) => Err(CodecError::MalformedField(Field::Value, f)),
                        Ok((value, rest)) => if rest.len() > 0 {
                            Err(CodecError::MalformedField(Field::Value, Fault::TrailingBytes))
                        } else {
                            Ok(RawDataPointView { location, path, component, timestamp, value })
                        },
                    },
                },
            },
        },
    }
}

/// Calls `String::from_utf8`.
///
/// Trusted: it returns a string exactly when the bytes are well-formed UTF-8,
/// and the string is then made of those bytes.
#[verifier::external_body]
fn string_from_utf8(bytes: Vec<u8>) -> (out: Option<String>)
    ensures
        match out {
            Some(s) => valid_utf8(bytes@) && encode_utf8(s@) == bytes@,
            None => !valid_utf8(bytes@),
        },
{
    String::from_utf8(bytes).ok()
}

fn take_text(bytes: &[u8], at: usize) -> (out: Result<(String, usize), Fault>)
    requires
        at <= bytes@.len(),
    ensures
        match out {
            Ok((s, next)) => at <= next <= bytes@.len() && read_text(bytes@.skip(at as int))
                == Ok::<(Seq<char>, Seq<u8>), Fault>((s@, bytes@.skip(next as int))),
            Err(f) => read_text(bytes@.skip(at as int)) == Err::<(Seq<char>, Seq<u8>), Fault>(f),
        },
{
    let ghost b = bytes@.skip(at as int);
    let left = bytes.len() - at;
    if left < 4 {
        return Err(Fault::Truncated);
    }
    let count = u32_from_le_bytes(slice_subrange(bytes, at, at + 4)) as usize;
    assert(bytes@.subrange(at as int, at + 4) =~= b.subrange(0, 4));
    if left - 4 < count {
        return Err(Fault::Truncated);
    }
    let raw = slice_to_vec(slice_subrange(bytes, at + 4, at + 4 + count));
    assert(raw@ =~= b.subrange(4, 4 + count));
    assert(bytes@.skip(at + 4 + count) =~= b.skip(4 + count));
    match string_from_utf8(raw) {
        None => Err(Fault::InvalidUtf8),
        Some(s) => {
            proof {
                vstd::utf8::encode_utf8_decode_utf8(s@);
            }
            Ok((s, at + 4 + count))
        },
    }
}

fn take_name(bytes: &[u8], at: usize) -> (out: Result<(String, usize), Fault>)
    requires
        at <= bytes@.len(),
    ensures
        match out {
            Ok((s, next)) => at <= next <= bytes@.len() && read_name(bytes@.skip(at as int))
                == Ok::<(Seq<char>, Seq<u8>), Fault>((s@, bytes@.skip(next as int))),
            Err(f) => read_name(bytes@.skip(at as int)) == Err::<(Seq<char>, Seq<u8>), Fault>(f),
        },
{
    match take_text(bytes, at) {
        Ok((s, next)) => if s.as_str().is_empty() {
            Err(Fault::Empty)
        } else {
            Ok((s, next))
        },
        Err(f) => Err(f),
    }
}

fn take_timestamp(bytes: &[u8], at: usize) -> (out: Result<(Timestamp, usize), Fault>)
    requires
        at <= bytes@.len(),
    ensures
        match out {
            Ok((t, next)) => at <= next <= bytes@.len() && read_timestamp(bytes@.skip(at as int))
                == Ok::<(Timestamp, Seq<u8>), Fault>((t, bytes@.skip(next as int))),
            Err(f) => read_timestamp(bytes@.skip(at as int)) == Err::<(Timestamp, Seq<u8>), Fault>(
                f,
            ),
        },
{
    let ghost b = bytes@.skip(at as int);
    if bytes.len() - at < 12 {
        return Err(Fault::Truncated);
    }
    let seconds = u64_from_le_bytes(slice_subrange(bytes, at, at + 8)) as i64;
    let nanos = u32_from_le_bytes(slice_subrange(bytes, at + 8, at + 12));
    assert(bytes@.subrange(at as int, at + 8) =~= b.subrange(0, 8));
    assert(bytes@.subrange(at + 8, at + 12) =~= b.subrange(8, 12));
    assert(bytes@.skip(at + 12) =~= b.skip(12));
    let t = Timestamp { seconds, nanos };
    if t.is_valid() {
        Ok((t, at + 12))
    } else {
        Err(Fault::NanosOutOfRange)
    }
}

fn take_value(bytes: &[u8], at: usize) -> (out: Result<(DataValue, usize), Fault>)
    requires
        at <= bytes@.len(),
    ensures
        match out {
            Ok((v, next)) => at <= next <= bytes@.len() && read_value(bytes@.skip(at as int))
                == Ok::<(DataValueView, Seq<u8>), Fault>((v@, bytes@.skip(next as int))),
            Err(f) => read_value(bytes@.skip(at as int)) == Err::<(DataValueView, Seq<u8>), Fault>(
                f,
            ),
        },
{
    let ghost b = bytes@.skip(at as int);
    let left = bytes.len() - at;
    if left < 1 {
        return Err(Fault::Truncated);
    }
    let tag = bytes[at];
    if tag == TAG_INTEGER || tag == TAG_FLOAT {
        if left < 9 {
            return Err(Fault::Truncated);
        }
        let payload = u64_from_le_bytes(slice_subrange(bytes, at + 1, at + 9));
        assert(bytes@.subrange(at + 1, at + 9) =~= b.subrange(1, 9));
        assert(bytes@.skip(at + 9) =~= b.skip(9));
        if tag == TAG_INTEGER {
            Ok((DataValue::Integer(payload as i64), at + 9))
        } else {
            Ok((DataValue::Float(payload), at + 9))
        }
    } else if tag == TAG_BOOL {
        if left < 2 {
            return Err(Fault::Truncated);
        }
        let payload = bytes[at + 1];
        assert(bytes@.skip(at + 2) =~= b.skip(2));
        if payload == 0 {
            Ok((DataValue::Bool(false), at + 2))
        } else if payload == 1 {
            Ok((DataValue::Bool(true), at + 2))
        } else {
            Err(Fault::InvalidBool)
        }
    } else if tag == TAG_TEXT {
        assert(bytes@.skip(at + 1) =~= b.skip(1));
        match take_text(bytes, at + 1) {
            Ok((s, next)) => Ok((DataValue::Text(s), next)),
            Err(f) => Err(f),
        }
    } else {
        Err(Fault::UnknownTag)
    }
}

/// Reads the record that a frame holds.
pub fn read_frame(bytes: &[u8]) -> (out: Result<RawDataPoint, CodecError>)
    ensures
        match out {
            Ok(record) => parse_frame(bytes@) == Ok::<RawDataPointView, CodecError>(record@),
            Err(e) => parse_frame(bytes@) == Err::<RawDataPointView, CodecError>(e),
        },
{
    assert(bytes@.skip(0) =~= bytes@);
    let (location, at) = match take_name(bytes, 0) {
        Ok(found) => found,
        Err(f) => {
            return Err(CodecError::MalformedField(Field::Location, f));
        },
    };
    let (path, at) = match take_name(bytes, at) {
        Ok(found) => found,
        Err(f) => {
            return Err(CodecError::MalformedField(Field::Path, f));
        },
    };
    let (component, at) = match take_name(bytes, at) {
        Ok(found) => found,
        Err(f) => {
            return Err(CodecError::MalformedField(Field::Component, f));
        },
    };
    let (timestamp, at) = match take_timestamp(bytes, at) {
        Ok(found) => found,
        Err(f) => {
            return Err(CodecError::MalformedField(Field::Timestamp, f));
        },
    };
    let (value, at) = match take_value(bytes, at) {
        Ok(found) => found,
        Err(f) => {
            return Err(CodecError::MalformedField(Field::Value, f));
        },
    };
    if at < bytes.len() {
        return Err(CodecError::MalformedField(Field::Value, Fault::TrailingBytes));
    }
    Ok(RawDataPoint { location, path, component, timestamp, value })
}

} // verus!
