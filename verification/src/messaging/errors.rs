//! Errors of the codec and of the channel.

use vstd::prelude::*;

use crate::messaging::data_types::Encoding;

verus! {

/// The five fields of a record, in the order in which they lie on the wire.
#[derive(Clone, Copy, Debug, PartialEq, Eq, Structural)]
pub enum Field {
    Location,
    Path,
    Component,
    Timestamp,
    Value,
}

/// Why a field could not be decoded.
#[derive(Clone, Copy, Debug, PartialEq, Eq, Structural)]
pub enum Fault {
    /// The packed stream could not be read, so not even the first field could
    /// be reached.
    Unreadable,
    /// The buffer ends before the field does.
    Truncated,
    /// The bytes of a text are not UTF-8.
    InvalidUtf8,
    /// A text that must not be empty is empty.
    Empty,
    /// The nanosecond count is not below two seconds.
    NanosOutOfRange,
    /// The value carries a tag that names no variant.
    UnknownTag,
    /// A boolean payload is neither 0 nor 1.
    InvalidBool,
    /// Bytes follow the last field.
    TrailingBytes,
}

/// Why the byte transform under the codec, or the sink behind it, failed.
#[derive(Clone, Copy, Debug, PartialEq, Eq, Structural)]
pub enum IoCause {
    /// The record does not fit in one envelope.
    FrameTooLarge,
    /// The packing codec returned an error.
    PackingFailed,
    /// The packed stream did not read back as the frame that was packed.
    ReadBackMismatch,
    /// The sink refused a finished buffer.
    SinkWrite,
}

/// What can go wrong with one record. None of these stops the pipeline.
#[derive(Clone, Copy, Debug, PartialEq, Eq, Structural)]
pub enum CodecError {
    /// The encoding has no codec.
    EncodingNotImplemented(Encoding),
    /// A field is missing or malformed.
    MalformedField(Field, Fault),
    /// The byte transform or the sink failed.
    IoFailure(IoCause),
}

/// Why a record was not queued.
#[derive(Clone, Copy, Debug, PartialEq, Eq, Structural)]
pub enum SubmitError {
    /// The queue already holds as many records as its capacity allows.
    QueueFull,
    /// Every producer end has been released.
    Closed,
}

} // verus!
