//! What holds of the codec, for every record and every buffer.

use vstd::bytes::{lemma_auto_spec_u32_to_from_le_bytes, spec_u32_to_le_bytes};
use vstd::prelude::*;

use crate::messaging::codec::{decode_spec, encode_spec, opened, sealed};
use crate::messaging::data_types::{Encoding, RawDataPointView};
use crate::messaging::errors::{CodecError, Fault, Field};
use crate::messaging::frame::frame_bytes;
use crate::messaging::frame_laws::{lemma_frame_round_trip, lemma_parsed_is_frame};
use crate::messaging::packed::{packed_stream, unpacked_stream};

verus! {

/// A packed stream is taken out of its envelope as it was put in.
pub proof fn lemma_opened_sealed(packed: Seq<u8>)
    requires
        packed.len() <= u32::MAX,
    ensures
        opened(sealed(packed)) == Ok::<Seq<u8>, CodecError>(packed),
{
    lemma_auto_spec_u32_to_from_le_bytes();
    let count = packed.len() as u32;
    assert(sealed(packed).subrange(0, 4) =~= spec_u32_to_le_bytes(count));
    assert(sealed(packed).skip(4) =~= packed);
}

/// An envelope cut short anywhere is told from its count.
pub proof fn lemma_opened_cut(packed: Seq<u8>, n: int)
    requires
        packed.len() <= u32::MAX,
        0 <= n < 4 + packed.len(),
    ensures
        opened(sealed(packed).take(n)) == Err::<Seq<u8>, CodecError>(
            CodecError::MalformedField(Field::Location, Fault::Truncated),
        ),
{
    lemma_auto_spec_u32_to_from_le_bytes();
    let count = packed.len() as u32;
    let cut = sealed(packed).take(n);
    assert(cut.len() == n);
    if n >= 4 {
        assert(cut.subrange(0, 4) =~= spec_u32_to_le_bytes(count));
    }
}

/// Round trip: whatever `Packed` buffer encoding a valid record yields,
/// decoding it yields that record again, field by field.
pub proof fn lemma_round_trip(r: RawDataPointView, bytes: Seq<u8>)
    requires
        r.valid(),
        encode_spec(r, Encoding::Packed) == Ok::<Seq<u8>, CodecError>(bytes),
    ensures
        decode_spec(bytes, Encoding::Packed) == Ok::<RawDataPointView, CodecError>(r),
{
    lemma_frame_round_trip(r);
    lemma_opened_sealed(packed_stream(frame_bytes(r))->Some_0);
}

/// Truncated buffers: whatever `Packed` buffer encoding a record yields, no
/// proper prefix of it decodes. Every one is reported as truncated at the
/// first field, for none of the fields can be reached.
pub proof fn lemma_truncated_buffer(r: RawDataPointView, bytes: Seq<u8>, n: int)
    requires
        encode_spec(r, Encoding::Packed) == Ok::<Seq<u8>, CodecError>(bytes),
        0 <= n < bytes.len(),
    ensures
        decode_spec(bytes.take(n), Encoding::Packed) == Err::<RawDataPointView, CodecError>(
            CodecError::MalformedField(Field::Location, Fault::Truncated),
        ),
{
    let packed = packed_stream(frame_bytes(r))->Some_0;
    lemma_auto_spec_u32_to_from_le_bytes();
    lemma_opened_cut(packed, n);
}

/// `Plain` is refused both ways, whatever the record and whatever the
/// buffer.
pub proof fn lemma_plain_refused(r: RawDataPointView, bytes: Seq<u8>)
    ensures
        encode_spec(r, Encoding::Plain) == Err::<Seq<u8>, CodecError>(
            CodecError::EncodingNotImplemented(Encoding::Plain),
        ),
        decode_spec(bytes, Encoding::Plain) == Err::<RawDataPointView, CodecError>(
            CodecError::EncodingNotImplemented(Encoding::Plain),
        ),
{
}

/// Decoding a `Packed` buffer, whatever it holds, ends in one of two ways:
/// with a valid record, or with an error that names a field.
pub proof fn lemma_decode_names_a_field(bytes: Seq<u8>)
    ensures
        match decode_spec(bytes, Encoding::Packed) {
            Ok(r) => r.valid(),
            Err(e) => e is MalformedField,
        },
{
    if let Ok(r) = decode_spec(bytes, Encoding::Packed) {
        lemma_parsed_is_frame(unpacked_stream(opened(bytes)->Ok_0)->Some_0);
    }
}

} // verus!
