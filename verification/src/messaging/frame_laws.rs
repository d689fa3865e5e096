//! What holds of the frame, for every record and every buffer: what is
//! written is read back, what is cut short is told, and nothing but a frame
//! is read as a record.

use vstd::bytes::{
    lemma_auto_spec_u32_to_from_le_bytes, lemma_auto_spec_u64_to_from_le_bytes,
    spec_u32_from_le_bytes, spec_u32_to_le_bytes, spec_u64_from_le_bytes, spec_u64_to_le_bytes,
};
use vstd::prelude::*;
use vstd::utf8::{
    decode_utf8_encode_utf8, encode_utf8, encode_utf8_decode_utf8, encode_utf8_valid_utf8,
};

use crate::messaging::data_types::{DataValueView, RawDataPointView, Timestamp};
use crate::messaging::errors::{CodecError, Fault, Field};
use crate::messaging::frame::{
    frame_bytes, frame_fits, frame_len, lemma_text_len, lemma_timestamp_len, lemma_value_len,
    text_bytes, text_len, timestamp_bytes, value_bytes, value_len, MAX_FRAME_LEN, TAG_TEXT,
};
use crate::messaging::parse::{parse_frame, read_name, read_text, read_timestamp, read_value};

verus! {


/// A text is read back from its bytes, whatever follows them.
pub proof fn lemma_read_text(s: Seq<char>, rest: Seq<u8>)
    requires
        text_len(s) <= MAX_FRAME_LEN,
    ensures
        read_text(text_bytes(s) + rest) == Ok::<(Seq<char>, Seq<u8>), Fault>((s, rest)),
{
    lemma_auto_spec_u32_to_from_le_bytes();
    encode_utf8_valid_utf8(s);
    encode_utf8_decode_utf8(s);
    let raw = encode_utf8(s);
    let count = raw.len() as u32;
    let b = text_bytes(s) + rest;
    assert(b.subrange(0, 4) =~= spec_u32_to_le_bytes(count));
    assert(b.subrange(4, 4 + count) =~= raw);
    assert(b.skip(4 + count) =~= rest);
}

/// A text cut short anywhere is reported as truncated.
pub proof fn lemma_read_text_cut(s: Seq<char>, n: int)
    requires
        text_len(s) <= MAX_FRAME_LEN,
        0 <= n < text_len(s),
    ensures
        read_text(text_bytes(s).take(n)) == Err::<(Seq<char>, Seq<u8>), Fault>(Fault::Truncated),
{
    lemma_auto_spec_u32_to_from_le_bytes();
    let raw = encode_utf8(s);
    let count = raw.len() as u32;
    let b = text_bytes(s).take(n);
    assert(b.len() == n);
    if n >= 4 {
        assert(b.subrange(0, 4) =~= spec_u32_to_le_bytes(count));
    }
}

/// A timestamp in range is read back from its bytes, whatever follows them.
pub proof fn lemma_read_timestamp(t: Timestamp, rest: Seq<u8>)
    requires
        t.valid(),
    ensures
        read_timestamp(timestamp_bytes(t) + rest) == Ok::<(Timestamp, Seq<u8>), Fault>((t, rest)),
{
    lemma_auto_spec_u32_to_from_le_bytes();
    lemma_auto_spec_u64_to_from_le_bytes();
    let b = timestamp_bytes(t) + rest;
    let seconds = t.seconds;
    assert(b.subrange(0, 8) =~= spec_u64_to_le_bytes(seconds as u64));
    assert(b.subrange(8, 12) =~= spec_u32_to_le_bytes(t.nanos));
    assert(b.skip(12) =~= rest);
    assert((seconds as u64) as i64 == seconds) by (bit_vector);
}

/// A timestamp cut short anywhere is reported as truncated.
pub proof fn lemma_read_timestamp_cut(t: Timestamp, n: int)
    requires
        0 <= n < 12,
    ensures
        read_timestamp(timestamp_bytes(t).take(n)) == Err::<(Timestamp, Seq<u8>), Fault>(
            Fault::Truncated,
        ),
{
    lemma_timestamp_len(t);
    assert(timestamp_bytes(t).take(n).len() == n);
}

/// A value is read back from its bytes, whatever follows them.
pub proof fn lemma_read_value(v: DataValueView, rest: Seq<u8>)
    requires
        value_len(v) <= MAX_FRAME_LEN,
    ensures
        read_value(value_bytes(v) + rest) == Ok::<(DataValueView, Seq<u8>), Fault>((v, rest)),
{
    lemma_auto_spec_u64_to_from_le_bytes();
    let b = value_bytes(v) + rest;
    match v {
        DataValueView::Integer(i) => {
            assert(b.subrange(1, 9) =~= spec_u64_to_le_bytes(i as u64));
            assert(b.skip(9) =~= rest);
            assert((i as u64) as i64 == i) by (bit_vector);
        },
        DataValueView::Float(bits) => {
            assert(b.subrange(1, 9) =~= spec_u64_to_le_bytes(bits));
            assert(b.skip(9) =~= rest);
        },
        DataValueView::Bool(flag) => {
            assert(b.skip(2) =~= rest);
        },
        DataValueView::Text(s) => {
            assert(b.skip(1) =~= text_bytes(s) + rest);
            lemma_read_text(s, rest);
        },
    }
}

/// A value cut short anywhere is reported as truncated.
pub proof fn lemma_read_value_cut(v: DataValueView, n: int)
    requires
        value_len(v) <= MAX_FRAME_LEN,
        0 <= n < value_len(v),
    ensures
        read_value(value_bytes(v).take(n)) == Err::<(DataValueView, Seq<u8>), Fault>(
            Fault::Truncated,
        ),
{
    lemma_value_len(v);
    let b = value_bytes(v).take(n);
    assert(b.len() == n);
    match v {
        DataValueView::Text(s) => {
            if n >= 1 {
                lemma_text_len(s);
                assert(b.skip(1) =~= text_bytes(s).take(n - 1));
                lemma_read_text_cut(s, n - 1);
            }
        },
        _ => {},
    }
}

/// A frame reads back as the record it was made from: every valid record
/// whose frame fits in an envelope is recovered from its frame, to the
/// nanosecond and to the bit.
pub proof fn lemma_frame_round_trip(r: RawDataPointView)
    requires
        r.valid(),
        frame_fits(r),
    ensures
        parse_frame(frame_bytes(r)) == Ok::<RawDataPointView, CodecError>(r),
{
    let a1 = text_bytes(r.location);
    let a2 = text_bytes(r.path);
    let a3 = text_bytes(r.component);
    let t = timestamp_bytes(r.timestamp);
    let v = value_bytes(r.value);
    let rest3 = t + v;
    let rest2 = a3 + rest3;
    let rest1 = a2 + rest2;
    assert(frame_bytes(r) =~= a1 + rest1);
    lemma_read_text(r.location, rest1);
    lemma_read_text(r.path, rest2);
    lemma_read_text(r.component, rest3);
    lemma_read_timestamp(r.timestamp, v);
    lemma_read_value(r.value, Seq::empty());
    assert(v =~= v + Seq::<u8>::empty());
}

/// The field in which the `n`-th byte of the frame of `r` lies.
pub open spec fn field_at(r: RawDataPointView, n: int) -> Field {
    if n < text_len(r.location) {
        Field::Location
    } else if n < text_len(r.location) + text_len(r.path) {
        Field::Path
    } else if n < text_len(r.location) + text_len(r.path) + text_len(r.component) {
        Field::Component
    } else if n < text_len(r.location) + text_len(r.path) + text_len(r.component) + 12 {
        Field::Timestamp
    } else {
        Field::Value
    }
}

/// A text followed by other bytes, cut anywhere: it is reported as truncated
/// if the cut falls in it, and is read whole if the cut falls behind it.
proof fn lemma_read_text_prefix(s: Seq<char>, rest: Seq<u8>, n: int)
    requires
        text_len(s) <= MAX_FRAME_LEN,
        0 <= n <= text_len(s) + rest.len(),
    ensures
        read_text((text_bytes(s) + rest).take(n)) == if n < text_len(s) {
            Err::<(Seq<char>, Seq<u8>), Fault>(Fault::Truncated)
        } else {
            Ok::<(Seq<char>, Seq<u8>), Fault>((s, rest.take(n - text_len(s))))
        },
{
    lemma_text_len(s);
    if n < text_len(s) {
        assert((text_bytes(s) + rest).take(n) =~= text_bytes(s).take(n));
        lemma_read_text_cut(s, n);
    } else {
        let left = rest.take(n - text_len(s));
        assert((text_bytes(s) + rest).take(n) =~= text_bytes(s) + left);
        lemma_read_text(s, left);
    }
}

/// A timestamp followed by other bytes, cut anywhere: it is reported as
/// truncated if the cut falls in it, and is read whole if the cut falls
/// behind it.
proof fn lemma_read_timestamp_prefix(t: Timestamp, rest: Seq<u8>, n: int)
    requires
        t.valid(),
        0 <= n <= 12 + rest.len(),
    ensures
        read_timestamp((timestamp_bytes(t) + rest).take(n)) == if n < 12 {
            Err::<(Timestamp, Seq<u8>), Fault>(Fault::Truncated)
        } else {
            Ok::<(Timestamp, Seq<u8>), Fault>((t, rest.take(n - 12)))
        },
{
    lemma_timestamp_len(t);
    if n < 12 {
        assert((timestamp_bytes(t) + rest).take(n) =~= timestamp_bytes(t).take(n));
        lemma_read_timestamp_cut(t, n);
    } else {
        let left = rest.take(n - 12);
        assert((timestamp_bytes(t) + rest).take(n) =~= timestamp_bytes(t) + left);
        lemma_read_timestamp(t, left);
    }
}

/// A frame cut short is never read as a record: whatever proper prefix of
/// the frame of a valid record is read, the field in which the cut falls is
/// reported as truncated.
pub proof fn lemma_truncated_frame(r: RawDataPointView, n: int)
    requires
        r.valid(),
        frame_fits(r),
        0 <= n < frame_len(r),
    ensures
        parse_frame(frame_bytes(r).take(n)) == Err::<RawDataPointView, CodecError>(
            CodecError::MalformedField(field_at(r, n), Fault::Truncated),
        ),
{
    let v = value_bytes(r.value);
    let rest3 = timestamp_bytes(r.timestamp) + v;
    let rest2 = text_bytes(r.component) + rest3;
    let rest1 = text_bytes(r.path) + rest2;
    let n1 = n - text_len(r.location);
    let n2 = n1 - text_len(r.path);
    let n3 = n2 - text_len(r.component);
    let n4 = n3 - 12;
    lemma_text_len(r.path);
    lemma_text_len(r.component);
    lemma_timestamp_len(r.timestamp);
    lemma_value_len(r.value);
    assert(frame_bytes(r) =~= text_bytes(r.location) + rest1);
    lemma_read_text_prefix(r.location, rest1, n);
    if n1 >= 0 {
        lemma_read_text_prefix(r.path, rest2, n1);
    }
    if n2 >= 0 {
        lemma_read_text_prefix(r.component, rest3, n2);
    }
    if n3 >= 0 {
        lemma_read_timestamp_prefix(r.timestamp, v, n3);
    }
    if n4 >= 0 {
        lemma_read_value_cut(r.value, n4);
    }
}

/// A text that was read lay at the head of the bytes exactly as it is
/// written.
pub proof fn lemma_text_as_written(b: Seq<u8>)
    ensures
        read_text(b) matches Ok((s, rest)) ==> text_bytes(s) + rest == b,
{
    if let Ok((s, rest)) = read_text(b) {
        lemma_auto_spec_u32_to_from_le_bytes();
        let head = b.subrange(0, 4);
        let count = spec_u32_from_le_bytes(head);
        let raw = b.subrange(4, 4 + count);
        decode_utf8_encode_utf8(raw);
        assert(spec_u32_to_le_bytes(count) == head);
        assert(text_bytes(s) + rest =~= b);
    }
}

/// A timestamp that was read lay at the head of the bytes exactly as it is
/// written.
pub proof fn lemma_timestamp_as_written(b: Seq<u8>)
    ensures
        read_timestamp(b) matches Ok((t, rest)) ==> timestamp_bytes(t) + rest == b,
{
    if let Ok((t, rest)) = read_timestamp(b) {
        lemma_auto_spec_u32_to_from_le_bytes();
        lemma_auto_spec_u64_to_from_le_bytes();
        let seconds = spec_u64_from_le_bytes(b.subrange(0, 8));
        assert((seconds as i64) as u64 == seconds) by (bit_vector);
        assert(spec_u64_to_le_bytes(seconds) == b.subrange(0, 8));
        assert(spec_u32_to_le_bytes(t.nanos) == b.subrange(8, 12));
        assert(timestamp_bytes(t) + rest =~= b);
    }
}

/// A value that was read lay at the head of the bytes exactly as it is
/// written.
pub proof fn lemma_value_as_written(b: Seq<u8>)
    ensures
        read_value(b) matches Ok((v, rest)) ==> value_bytes(v) + rest == b,
{
    if let Ok((v, rest)) = read_value(b) {
        lemma_auto_spec_u64_to_from_le_bytes();
        match v {
            DataValueView::Integer(i) => {
                let payload = spec_u64_from_le_bytes(b.subrange(1, 9));
                assert((payload as i64) as u64 == payload) by (bit_vector);
                assert(spec_u64_to_le_bytes(payload) == b.subrange(1, 9));
                assert(value_bytes(v) + rest =~= b);
            },
            DataValueView::Float(bits) => {
                assert(spec_u64_to_le_bytes(bits) == b.subrange(1, 9));
                assert(value_bytes(v) + rest =~= b);
            },
            DataValueView::Bool(flag) => {
                assert(value_bytes(v) + rest =~= b);
            },
            DataValueView::Text(s) => {
                lemma_text_as_written(b.skip(1));
                assert(b =~= seq![TAG_TEXT] + b.skip(1));
                assert(value_bytes(v) + rest =~= seq![TAG_TEXT] + (text_bytes(s) + rest));
            },
        }
    }
}

/// A name that was read is not empty, and lay at the head of the bytes
/// exactly as it is written.
pub proof fn lemma_name_as_written(b: Seq<u8>)
    ensures
        read_name(b) matches Ok((s, rest)) ==> s.len() > 0 && text_bytes(s) + rest == b,
{
    lemma_text_as_written(b);
}

/// Five fields, each followed by what is left behind it, make up the frame.
proof fn lemma_assembled(
    r: RawDataPointView,
    b: Seq<u8>,
    b1: Seq<u8>,
    b2: Seq<u8>,
    b3: Seq<u8>,
    b4: Seq<u8>,
)
    requires
        b == text_bytes(r.location) + b1,
        b1 == text_bytes(r.path) + b2,
        b2 == text_bytes(r.component) + b3,
        b3 == timestamp_bytes(r.timestamp) + b4,
        b4 == value_bytes(r.value) + Seq::<u8>::empty(),
    ensures
        frame_bytes(r) == b,
{
    assert(frame_bytes(r) =~= b);
}

/// Only frames are read as records: a buffer that is read as a record holds
/// a valid record, and is byte for byte the frame of that record.
pub proof fn lemma_parsed_is_frame(b: Seq<u8>)
    ensures
        parse_frame(b) matches Ok(r) ==> r.valid() && frame_bytes(r) == b,
{
    if let Ok(r) = parse_frame(b) {
        let b1 = read_name(b)->Ok_0.1;
        let b2 = read_name(b1)->Ok_0.1;
        let b3 = read_name(b2)->Ok_0.1;
        let b4 = read_timestamp(b3)->Ok_0.1;
        let rest = read_value(b4)->Ok_0.1;
        lemma_name_as_written(b);
        lemma_name_as_written(b1);
        lemma_name_as_written(b2);
        lemma_timestamp_as_written(b3);
        lemma_value_as_written(b4);
        assert(rest =~= Seq::<u8>::empty());
        lemma_assembled(r, b, b1, b2, b3, b4);
    }
}

/// Frames and valid records correspond one to one: a buffer is read as a
/// record exactly if the record is valid and the buffer is its frame.
pub proof fn lemma_frames_are_records(r: RawDataPointView, b: Seq<u8>)
    requires
        frame_fits(r),
    ensures
        parse_frame(b) == Ok::<RawDataPointView, CodecError>(r) <==> r.valid() && frame_bytes(r)
            == b,
{
    lemma_parsed_is_frame(b);
    if r.valid() {
        lemma_frame_round_trip(r);
    }
}

} // verus!
