//! The value model and its codec.

pub mod codec;
pub mod data_types;
pub mod errors;
pub mod frame;
pub mod frame_laws;
pub mod laws;
pub mod packed;
pub mod parse;
