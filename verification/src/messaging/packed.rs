//! The packed stream: a frame carried as the one byte list of a Cap'n Proto
//! message, written in the packed stream encoding.
//!
//! What the two streams hold is the business of the `capnp` crate and is not
//! proved here. This module only gives each result a name, so that the codec
//! can say exactly what it returns.

use vstd::prelude::*;

use crate::messaging::frame::MAX_FRAME_LEN;

verus! {

/// The bytes that `capnp::serialize_packed::write_message` writes for a fresh
/// message whose root is the byte list `frame`; `None` where building or
/// writing the message returns an error.
pub uninterp spec fn packed_stream(frame: Seq<u8>) -> Option<Seq<u8>>;

/// The byte list at the root of the message that
/// `capnp::serialize_packed::read_message` reads from `bytes` under the
/// default reader options; `None` where reading the message or its root
/// returns an error.
pub uninterp spec fn unpacked_stream(bytes: Seq<u8>) -> Option<Seq<u8>>;

/// Calls `capnp::message::Builder::set_root` and
/// `capnp::serialize_packed::write_message`.
///
/// Trusted: the bytes written depend on the frame alone, so they are
/// `packed_stream` of it. Nothing is claimed of what they hold, nor that the
/// call succeeds. A byte list of 2^29 bytes or more makes `set_root` panic,
/// which the precondition rules out.
#[verifier::external_body]
pub(crate) fn pack(frame: &Vec<u8>) -> (out: Option<Vec<u8>>)
    requires
        frame@.len() <= MAX_FRAME_LEN,
    ensures
        match out {
            Some(bytes) => packed_stream(frame@) == Some(bytes@),
            None => packed_stream(frame@) is None,
        },
{
    let mut message = capnp::message::Builder::new_default();
    message.set_root::<capnp::data::Owned>(frame.as_slice()).ok()?;
    let mut out: Vec<u8> = Vec::new();
    capnp::serialize_packed::write_message(&mut out, &message).ok()?;
    Some(out)
}

/// Calls `capnp::serialize_packed::read_message` with the default reader
/// options, and `capnp::message::Reader::get_root` for a byte list.
///
/// Trusted: what is read depends on the bytes alone, so it is
/// `unpacked_stream` of them. Nothing is claimed of which bytes are accepted.
/// The reader returns an error on input it cannot follow, and under the
/// default options refuses a message of more than 8 Mi words before it
/// allocates for it.
#[verifier::external_body]
pub(crate) fn unpack(bytes: &[u8]) -> (out: Option<Vec<u8>>)
    ensures
        match out {
            Some(frame) => unpacked_stream(bytes@) == Some(frame@),
            None => unpacked_stream(bytes@) is None,
        },
{
    let options = capnp::message::ReaderOptions::new();
    let message = capnp::serialize_packed::read_message(bytes, options).ok()?;
    let root = message.get_root::<capnp::data::Reader>().ok()?;
    Some(root.to_vec())
}

} // verus!
