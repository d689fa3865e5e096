//! The frame: the five fields of a record laid out as bytes.
//!
//! In order: location, path and component, each a text; the timestamp; the
//! value. A text is the little-endian `u32` count of its UTF-8 bytes, then the
//! bytes. The timestamp is the seconds as eight little-endian bytes (two's
//! complement), then the nanoseconds as four. The value is a tag byte and its
//! payload: eight little-endian bytes for an integer or a float, one byte
//! (0 or 1) for a boolean, a text for a text.

use vstd::bytes::{
    lemma_auto_spec_u32_to_from_le_bytes, lemma_auto_spec_u64_to_from_le_bytes,
    spec_u32_to_le_bytes, spec_u64_to_le_bytes, u32_to_le_bytes, u64_to_le_bytes,
};
use vstd::prelude::*;
use vstd::utf8::encode_utf8;

use crate::messaging::data_types::{
    DataValue, DataValueView, RawDataPoint, RawDataPointView, Timestamp,
};

verus! {

/// The tag of [`DataValue::Integer`].
pub const TAG_INTEGER: u8 = 0;

/// The tag of [`DataValue::Float`].
pub const TAG_FLOAT: u8 = 1;

/// The tag of [`DataValue::Bool`].
pub const TAG_BOOL: u8 = 2;

/// The tag of [`DataValue::Text`].
pub const TAG_TEXT: u8 = 3;

/// The longest frame that one envelope carries: a byte list of the packed
/// codec holds fewer than 2^29 bytes.
pub const MAX_FRAME_LEN: usize = 0x1fff_ffff;

/// The bytes of a text: the count of its UTF-8 bytes, then the bytes.
pub open spec fn text_bytes(s: Seq<char>) -> Seq<u8> {
    spec_u32_to_le_bytes(encode_utf8(s).len() as u32) + encode_utf8(s)
}

/// The bytes of a timestamp: seconds, then nanoseconds.
pub open spec fn timestamp_bytes(t: Timestamp) -> Seq<u8> {
    spec_u64_to_le_bytes(t.seconds as u64) + spec_u32_to_le_bytes(t.nanos)
}

/// The bytes of a value: its tag, then its payload.
pub open spec fn value_bytes(v: DataValueView) -> Seq<u8> {
    match v {
        DataValueView::Integer(i) => seq![TAG_INTEGER] + spec_u64_to_le_bytes(i as u64),
        DataValueView::Float(bits) => seq![TAG_FLOAT] + spec_u64_to_le_bytes(bits),
        DataValueView::Bool(b) => seq![TAG_BOOL, if b { 1u8 } else { 0u8 }],
        DataValueView::Text(s) => seq![TAG_TEXT] + text_bytes(s),
    }
}

/// The frame of a record.
pub open spec fn frame_bytes(r: RawDataPointView) -> Seq<u8> {
    text_bytes(r.location) + text_bytes(r.path) + text_bytes(r.component) + timestamp_bytes(
        r.timestamp,
    ) + value_bytes(r.value)
}

/// How many bytes a text takes.
pub open spec fn text_len(s: Seq<char>) -> nat {
    4 + encode_utf8(s).len()
}

/// How many bytes a value takes.
pub open spec fn value_len(v: DataValueView) -> nat {
    match v {
        DataValueView::Integer(_) => 9,
        DataValueView::Float(_) => 9,
        DataValueView::Bool(_) => 2,
        DataValueView::Text(s) => 1 + text_len(s),
    }
}

/// How many bytes the frame of a record takes.
pub open spec fn frame_len(r: RawDataPointView) -> nat {
    text_len(r.location) + text_len(r.path) + text_len(r.component) + 12 + value_len(r.value)
}

/// The frame of the record fits in one envelope. Then every count in it fits
/// its four bytes.
pub open spec fn frame_fits(r: RawDataPointView) -> bool {
    frame_len(r) <= MAX_FRAME_LEN
}

/// The bytes of a text are as many as [`text_len`] says.
pub proof fn lemma_text_len(s: Seq<char>)
    ensures
        text_bytes(s).len() == text_len(s),
{
    lemma_auto_spec_u32_to_from_le_bytes();
}

/// The bytes of a timestamp are twelve.
pub proof fn lemma_timestamp_len(t: Timestamp)
    ensures
        timestamp_bytes(t).len() == 12,
{
    lemma_auto_spec_u32_to_from_le_bytes();
    lemma_auto_spec_u64_to_from_le_bytes();
}

/// The bytes of a value are as many as [`value_len`] says.
pub proof fn lemma_value_len(v: DataValueView)
    ensures
        value_bytes(v).len() == value_len(v),
{
    lemma_auto_spec_u32_to_from_le_bytes();
    lemma_auto_spec_u64_to_from_le_bytes();
}

/// A frame is as long as [`frame_len`] says.
pub proof fn lemma_frame_len(r: RawDataPointView)
    ensures
        frame_bytes(r).len() == frame_len(r),
{
    lemma_text_len(r.location);
    lemma_text_len(r.path);
    lemma_text_len(r.component);
    lemma_timestamp_len(r.timestamp);
    lemma_value_len(r.value);
}

fn put_u32(out: &mut Vec<u8>, x: u32)
    ensures
        final(out)@ == old(out)@ + spec_u32_to_le_bytes(x),
{
    let mut bytes = u32_to_le_bytes(x);
    out.append(&mut bytes);
}

fn put_u64(out: &mut Vec<u8>, x: u64)
    ensures
        final(out)@ == old(out)@ + spec_u64_to_le_bytes(x),
{
    let mut bytes = u64_to_le_bytes(x);
    out.append(&mut bytes);
}

fn put_text(out: &mut Vec<u8>, s: &str)
    requires
        text_len(s@) <= MAX_FRAME_LEN,
    ensures
        final(out)@ == old(out)@ + text_bytes(s@),
{
    let mut raw = s.as_bytes_vec();
    let count = raw.len() as u32;
    put_u32(out, count);
    out.append(&mut raw);
    assert(out@ == old(out)@ + text_bytes(s@));
}

fn put_value(out: &mut Vec<u8>, v: &DataValue)
    requires
        value_len(v@) <= MAX_FRAME_LEN,
    ensures
        final(out)@ == old(out)@ + value_bytes(v@),
{
    match v {
        DataValue::Integer(i) => {
            out.push(TAG_INTEGER);
            put_u64(out, *i as u64);
        },
        DataValue::Float(bits) => {
            out.push(TAG_FLOAT);
            put_u64(out, *bits);
        },
        DataValue::Bool(b) => {
            out.push(TAG_BOOL);
            out.push(if *b { 1u8 } else { 0u8 });
        },
        DataValue::Text(s) => {
            out.push(TAG_TEXT);
            put_text(out, s.as_str());
        },
    }
    assert(out@ == old(out)@ + value_bytes(v@));
}

/// How many bytes the text takes, if that is no more than `MAX_FRAME_LEN`.
fn measured_text(s: &str) -> (n: Option<usize>)
    ensures
        match n {
            Some(n) => n == text_len(s@) && n <= MAX_FRAME_LEN,
            None => text_len(s@) > MAX_FRAME_LEN,
        },
{
    let raw = s.as_bytes().len();
    if raw > MAX_FRAME_LEN - 4 {
        None
    } else {
        Some(raw + 4)
    }
}

/// How many bytes the value takes, if that is no more than `MAX_FRAME_LEN`.
fn measured_value(v: &DataValue) -> (n: Option<usize>)
    ensures
        match n {
            Some(n) => n == value_len(v@) && n <= MAX_FRAME_LEN,
            None => value_len(v@) > MAX_FRAME_LEN,
        },
{
    match v {
        DataValue::Integer(_) => Some(9),
        DataValue::Float(_) => Some(9),
        DataValue::Bool(_) => Some(2),
        DataValue::Text(s) => match measured_text(s.as_str()) {
            Some(n) => if n == MAX_FRAME_LEN {
                None
            } else {
                Some(n + 1)
            },
            None => None,
        },
    }
}

/// How many bytes the frame of the record takes, if it fits in one envelope.
pub fn measured_frame(r: &RawDataPoint) -> (n: Option<usize>)
    ensures
        match n {
            Some(n) => n == frame_len(r@) && frame_fits(r@),
            None => !frame_fits(r@),
        },
{
    let location = measured_text(r.location.as_str());
    let path = measured_text(r.path.as_str());
    let component = measured_text(r.component.as_str());
    let value = measured_value(&r.value);
    match (location, path, component, value) {
        (Some(a), Some(b), Some(c), Some(d)) => {
            let total: usize = a + b + c + 12 + d;
            if total <= MAX_FRAME_LEN {
                Some(total)
            } else {
                None
            }
        },
        _ => None,
    }
}

/// Lays the record out as its frame. `None` if the frame would not fit in one
/// envelope.
pub fn write_frame(r: &RawDataPoint) -> (out: Option<Vec<u8>>)
    ensures
        match out {
            Some(frame) => frame_fits(r@) && frame@ == frame_bytes(r@) && frame@.len()
                <= MAX_FRAME_LEN,
            None => !frame_fits(r@),
        },
{
    proof {
        lemma_frame_len(r@);
    }
    match measured_frame(r) {
        None => None,
        Some(n) => {
            let mut out: Vec<u8> = Vec::with_capacity(n);
            put_text(&mut out, r.location.as_str());
            put_text(&mut out, r.path.as_str());
            put_text(&mut out, r.component.as_str());
            put_u64(&mut out, r.timestamp.seconds as u64);
            put_u32(&mut out, r.timestamp.nanos);
            put_value(&mut out, &r.value);
            assert(out@ == frame_bytes(r@));
            Some(out)
        },
    }
}

} // verus!
