//! What encoding and decoding a record mean.
//!
//! A `Packed` buffer is an envelope: the little-endian `u32` count of the
//! bytes of a packed stream, then the stream. The stream carries the frame of
//! the record. The count lets a reader tell a buffer that was cut short, or
//! run on, before it opens the stream.

use vstd::bytes::{spec_u32_from_le_bytes, spec_u32_to_le_bytes, u32_from_le_bytes, u32_to_le_bytes};
use vstd::prelude::*;
use vstd::slice::slice_subrange;

use crate::messaging::data_types::{Encoding, RawDataPoint, RawDataPointView};
use crate::messaging::errors::{CodecError, Fault, Field, IoCause};
use crate::messaging::frame::{frame_bytes, frame_fits};
use crate::messaging::packed::{packed_stream, unpacked_stream};
use crate::messaging::parse::{parse_frame, read_frame};

verus! {

/// The bytes of a buffer that may be missing.
pub open spec fn seen(bytes: Option<Vec<u8>>) -> Option<Seq<u8>> {
    match bytes {
        Some(b) => Some(b@),
        None => None,
    }
}

/// The envelope of a packed stream: its count, then the stream.
pub open spec fn sealed(packed: Seq<u8>) -> Seq<u8> {
    spec_u32_to_le_bytes(packed.len() as u32) + packed
}

/// The packed stream in an envelope. An envelope that ends before its stream
/// does leaves every field missing, and the first of them is reported; one
/// that runs on behind its stream has bytes after its last field.
pub open spec fn opened(bytes: Seq<u8>) -> Result<Seq<u8>, CodecError> {
    if bytes.len() < 4 {
        Err(CodecError::MalformedField(Field::Location, Fault::Truncated))
    } else {
        let count = spec_u32_from_le_bytes(bytes.subrange(0, 4)) as int;
        if bytes.len() - 4 < count {
            Err(CodecError::MalformedField(Field::Location, Fault::Truncated))
        } else if bytes.len() - 4 > count {
            Err(CodecError::MalformedField(Field::Value, Fault::TrailingBytes))
        } else {
            Ok(bytes.skip(4))
        }
    }
}

/// What is handed out for a frame, given the packed stream made from it and
/// what that stream reads back as: the envelope of the stream, if the stream
/// reads back as the frame and its count fits four bytes.
pub open spec fn checked_packed(
    frame: Seq<u8>,
    packed: Seq<u8>,
    read_back: Option<Seq<u8>>,
) -> Result<Seq<u8>, CodecError> {
    if read_back != Some(frame) {
        Err(CodecError::IoFailure(IoCause::ReadBackMismatch))
    } else if packed.len() > u32::MAX {
        Err(CodecError::IoFailure(IoCause::FrameTooLarge))
    } else {
        Ok(sealed(packed))
    }
}

/// The result of encoding a record.
///
/// Under `Packed` the frame of the record is packed, and the packed stream is
/// sealed and handed out only if it reads back as that frame.
pub open spec fn encode_spec(r: RawDataPointView, encoding: Encoding) -> Result<
    Seq<u8>,
    CodecError,
> {
    match encoding {
        Encoding::Plain => Err(CodecError::EncodingNotImplemented(Encoding::Plain)),
        Encoding::Packed => if !frame_fits(r) {
            Err(CodecError::IoFailure(IoCause::FrameTooLarge))
        } else {
            match packed_stream(frame_bytes(r)) {
                None => Err(CodecError::IoFailure(IoCause::PackingFailed)),
                Some(packed) => checked_packed(frame_bytes(r), packed, unpacked_stream(packed)),
            }
        },
    }
}

/// The result of decoding what a packed stream held. A stream that could not
/// be read leaves every field missing; the first of them is reported.
pub open spec fn decode_unpacked(unpacked: Option<Seq<u8>>) -> Result<
    RawDataPointView,
    CodecError,
> {
    match unpacked {
        None => Err(CodecError::MalformedField(Field::Location, Fault::Unreadable)),
        Some(frame) => parse_frame(frame),
    }
}

/// The result of decoding a buffer.
pub open spec fn decode_spec(bytes: Seq<u8>, encoding: Encoding) -> Result<
    RawDataPointView,
    CodecError,
> {
    match encoding {
        Encoding::Plain => Err(CodecError::EncodingNotImplemented(Encoding::Plain)),
        Encoding::Packed => match opened(bytes) {
            Err(e) => Err(e),
            Ok(packed) => decode_unpacked(unpacked_stream(packed)),
        },
    }
}

/// Whether two byte strings are the same.
pub fn same_bytes(a: &Vec<u8>, b: &Vec<u8>) -> (same: bool)
    ensures
        same == (a@ == b@),
{
    if a.len() != b.len() {
        return false;
    }
    let mut i: usize = 0;
    while i < a.len()
        invariant
            a.len() == b.len(),
            i <= a.len(),
            forall|j: int| 0 <= j < i ==> a@[j] == b@[j],
        decreases a.len() - i,
    {
        if a[i] != b[i] {
            return false;
        }
        i += 1;
    }
    assert(a@ =~= b@);
    true
}

/// Decides what to hand out for a frame, given the packed stream made from
/// it and what that stream reads back as.
pub fn check_packed(frame: &Vec<u8>, packed: Vec<u8>, read_back: Option<Vec<u8>>) -> (out: Result<
    Vec<u8>,
    CodecError,
>)
    ensures
        match out {
            Ok(bytes) => checked_packed(frame@, packed@, seen(read_back)) == Ok::<
                Seq<u8>,
                CodecError,
            >(bytes@),
            Err(e) => checked_packed(frame@, packed@, seen(read_back)) == Err::<
                Seq<u8>,
                CodecError,
            >(e),
        },
{
    let faithful = match read_back {
        Some(again) => same_bytes(&again, frame),
        None => false,
    };
    if !faithful {
        Err(CodecError::IoFailure(IoCause::ReadBackMismatch))
    } else if packed.len() > 0xffff_ffff {
        Err(CodecError::IoFailure(IoCause::FrameTooLarge))
    } else {
        let mut stream = packed;
        let mut out = u32_to_le_bytes(stream.len() as u32);
        out.append(&mut stream);
        Ok(out)
    }
}

/// Takes the packed stream out of an envelope.
pub fn open_envelope(bytes: &[u8]) -> (out: Result<&[u8], CodecError>)
    ensures
        match out {
            Ok(packed) => opened(bytes@) == Ok::<Seq<u8>, CodecError>(packed@),
            Err(e) => opened(bytes@) == Err::<Seq<u8>, CodecError>(e),
        },
{
    let len = bytes.len();
    if len < 4 {
        return Err(CodecError::MalformedField(Field::Location, Fault::Truncated));
    }
    let count = u32_from_le_bytes(slice_subrange(bytes, 0, 4)) as usize;
    if len - 4 < count {
        Err(CodecError::MalformedField(Field::Location, Fault::Truncated))
    } else if len - 4 > count {
        Err(CodecError::MalformedField(Field::Value, Fault::TrailingBytes))
    } else {
        Ok(slice_subrange(bytes, 4, len))
    }
}

/// Decodes what a packed stream held: the frame in it, if it could be read.
pub fn read_unpacked(unpacked: Option<Vec<u8>>) -> (out: Result<RawDataPoint, CodecError>)
    ensures
        match out {
            Ok(record) => decode_unpacked(seen(unpacked)) == Ok::<RawDataPointView, CodecError>(
                record@,
            ),
            Err(e) => decode_unpacked(seen(unpacked)) == Err::<RawDataPointView, CodecError>(e),
        },
{
    match unpacked {
        None => Err(CodecError::MalformedField(Field::Location, Fault::Unreadable)),
        Some(frame) => read_frame(frame.as_slice()),
    }
}

} // verus!
