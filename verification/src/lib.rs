//! A telemetry collection pipeline.
//!
//! Producers stamp typed observations with the time their handle was made and
//! queue them on a bounded channel; a single encoder worker drains the queue
//! and turns each record into a self-contained byte buffer for a sink.
//!
//! * [`messaging`] holds the value model, the wire layout and the codec.
//! * [`collector`] holds the channel, the producer handles and the worker.

pub mod collector;
pub mod messaging;
