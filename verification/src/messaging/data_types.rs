//! The value model: data values, timestamps, records and encodings.

use vstd::prelude::*;

use crate::messaging::codec::{
    check_packed, decode_spec, encode_spec, open_envelope, read_unpacked,
};
use crate::messaging::errors::{CodecError, IoCause};
use crate::messaging::frame::write_frame;
use crate::messaging::laws::{lemma_decode_names_a_field, lemma_round_trip};
use crate::messaging::packed::{pack, unpack};

verus! {

/// The wire formats a record can be asked for.
#[derive(Clone, Copy, Debug, PartialEq, Eq, Structural)]
pub enum Encoding {
    /// The fields, each text behind its count, carried as a packed
    /// (zero-byte-elided) stream in a counted envelope.
    Packed,
    /// Reserved; every request for it is refused.
    Plain,
}

/// One typed observation.
#[derive(Clone, Debug, PartialEq, Eq)]
pub enum DataValue {
    Integer(i64),
    /// The IEEE 754 binary64 bit pattern of the number, kept exactly.
    Float(u64),
    Bool(bool),
    Text(String),
}

/// What a [`DataValue`] stands for.
pub enum DataValueView {
    Integer(i64),
    Float(u64),
    Bool(bool),
    Text(Seq<char>),
}

impl View for DataValue {
    type V = DataValueView;

    open spec fn view(&self) -> DataValueView {
        match self {
            DataValue::Integer(i) => DataValueView::Integer(*i),
            DataValue::Float(bits) => DataValueView::Float(*bits),
            DataValue::Bool(b) => DataValueView::Bool(*b),
            DataValue::Text(s) => DataValueView::Text(s@),
        }
    }
}

/// Nanosecond counts at or above this bound name no instant. Counts from one
/// second up to it stand for a leap second.
pub const NANOS_LIMIT: u32 = 2_000_000_000;

/// An instant: whole seconds since the Unix epoch, and nanoseconds into the
/// second.
#[derive(Clone, Copy, Debug, PartialEq, Eq, Structural)]
pub struct Timestamp {
    pub seconds: i64,
    pub nanos: u32,
}

impl Timestamp {
    /// The nanosecond count is in range.
    pub open spec fn valid(self) -> bool {
        self.nanos < NANOS_LIMIT
    }

    /// Whether the nanosecond count is in range.
    pub fn is_valid(&self) -> (ok: bool)
        ensures
            ok == self.valid(),
    {
        self.nanos < NANOS_LIMIT
    }
}

/// One timestamped observation.
#[derive(Clone, Debug, PartialEq, Eq)]
pub struct RawDataPoint {
    /// The host or process the observation comes from.
    pub location: String,
    /// The metric namespace, such as `cpu.load`.
    pub path: String,
    /// The sub-resource observed.
    pub component: String,
    /// The instant at which the producer's handle was made.
    pub timestamp: Timestamp,
    pub value: DataValue,
}

/// What a [`RawDataPoint`] stands for.
pub struct RawDataPointView {
    pub location: Seq<char>,
    pub path: Seq<char>,
    pub component: Seq<char>,
    pub timestamp: Timestamp,
    pub value: DataValueView,
}

impl RawDataPointView {
    /// The three names are non-empty and the timestamp is in range.
    pub open spec fn valid(self) -> bool {
        &&& self.location.len() > 0
        &&& self.path.len() > 0
        &&& self.component.len() > 0
        &&& self.timestamp.valid()
    }
}

impl View for RawDataPoint {
    type V = RawDataPointView;

    open spec fn view(&self) -> RawDataPointView {
        RawDataPointView {
            location: self.location@,
            path: self.path@,
            component: self.component@,
            timestamp: self.timestamp,
            value: self.value@,
        }
    }
}

impl RawDataPoint {
    /// Whether the record is one the data model admits.
    pub fn is_valid(&self) -> (ok: bool)
        ensures
            ok == self@.valid(),
    {
        !self.location.as_str().is_empty() && !self.path.as_str().is_empty()
            && !self.component.as_str().is_empty() && self.timestamp.is_valid()
    }

    /// Encodes the record.
    ///
    /// `Plain` is always refused. Under `Packed` the record is laid out as its
    /// frame, the frame is packed, and the packed stream is read back before
    /// it is sealed in its envelope and handed out. So a buffer that is
    /// handed out for a valid record decodes to that record.
    pub fn to_bytes(&self, encoding: Encoding) -> (out: Result<Vec<u8>, CodecError>)
        ensures
            match out {
                Ok(bytes) => encode_spec(self@, encoding) == Ok::<Seq<u8>, CodecError>(bytes@),
                Err(e) => encode_spec(self@, encoding) == Err::<Seq<u8>, CodecError>(e),
            },
            out matches Ok(bytes) ==> encoding == Encoding::Packed,
            out matches Ok(bytes) ==> self@.valid() ==> decode_spec(bytes@, Encoding::Packed)
                == Ok::<RawDataPointView, CodecError>(self@),
    {
        proof {
            if self@.valid() && encode_spec(self@, Encoding::Packed) is Ok {
                lemma_round_trip(self@, encode_spec(self@, Encoding::Packed)->Ok_0);
            }
        }
        match encoding {
            Encoding::Plain => Err(CodecError::EncodingNotImplemented(Encoding::Plain)),
            Encoding::Packed => match write_frame(self) {
                None => Err(CodecError::IoFailure(IoCause::FrameTooLarge)),
                Some(frame) => match pack(&frame) {
                    None => Err(CodecError::IoFailure(IoCause::PackingFailed)),
                    Some(packed) => {
                        let read_back = unpack(packed.as_slice());
                        check_packed(&frame, packed, read_back)
                    },
                },
            },
        }
    }

    /// Decodes a record.
    ///
    /// `Plain` is always refused. Under `Packed` the envelope is opened, the
    /// packed stream in it is unpacked, and the frame in that is read field by
    /// field; the first field that is missing or malformed is reported, and
    /// no record is made up for it. What is decoded is a valid record.
    pub fn from_bytes(bytes: &Vec<u8>, encoding: Encoding) -> (out: Result<
        RawDataPoint,
        CodecError,
    >)
        ensures
            match out {
                Ok(record) => decode_spec(bytes@, encoding) == Ok::<RawDataPointView, CodecError>(
                    record@,
                ),
                Err(e) => decode_spec(bytes@, encoding) == Err::<RawDataPointView, CodecError>(e),
            },
            out matches Ok(record) ==> encoding == Encoding::Packed && record@.valid(),
            out matches Err(e) ==> encoding == Encoding::Packed ==> e is MalformedField,
    {
        proof {
            lemma_decode_names_a_field(bytes@);
        }
        match encoding {
            Encoding::Plain => Err(CodecError::EncodingNotImplemented(Encoding::Plain)),
            Encoding::Packed => match open_envelope(bytes.as_slice()) {
                Err(e) => Err(e),
                Ok(packed) => read_unpacked(unpack(packed)),
            },
        }
    }
}

} // verus!
