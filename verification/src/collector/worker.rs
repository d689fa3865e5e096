//! The encoder worker: the one consumer of the channel.
//!
//! The worker is a state machine that is stepped from outside. One step takes
//! at most one record off the channel, encodes it, and says what is to be done
//! next: forward a buffer to the sink, report an error, wait for the channel
//! to change, or stop. Writing, reporting and waiting are the caller's part.

use vstd::prelude::*;

use crate::collector::channel::{ChannelView, CollectorChannel};
use crate::messaging::codec::encode_spec;
use crate::messaging::data_types::Encoding;
use crate::messaging::errors::{CodecError, IoCause};

verus! {

/// Where the worker is in its life. It only ever moves forward: from
/// `Running` to `Draining` to `Terminated`.
#[derive(Clone, Copy, Debug, PartialEq, Eq, Structural)]
pub enum WorkerState {
    /// Producers may still submit.
    Running,
    /// The channel is closed; what is queued is still to be encoded.
    Draining,
    /// The channel is closed and empty. Nothing is received any more.
    Terminated,
}

/// What the caller is to do after a step.
#[derive(Clone, Debug, PartialEq, Eq)]
pub enum WorkerAction {
    /// Write this buffer to the sink, then say how it went.
    Forward(Vec<u8>),
    /// A record could not be encoded and was dropped: report this error.
    Report(CodecError),
    /// Nothing is queued and the channel is open: wait until it changes.
    Wait,
    /// The worker has terminated: release the sink.
    Stop,
}

/// What a [`WorkerAction`] stands for.
pub enum ActionView {
    Forward(Seq<u8>),
    Report(CodecError),
    Wait,
    Stop,
}

impl View for WorkerAction {
    type V = ActionView;

    open spec fn view(&self) -> ActionView {
        match self {
            WorkerAction::Forward(bytes) => ActionView::Forward(bytes@),
            WorkerAction::Report(e) => ActionView::Report(*e),
            WorkerAction::Wait => ActionView::Wait,
            WorkerAction::Stop => ActionView::Stop,
        }
    }
}

/// What a [`EncoderWorker`] stands for.
pub struct WorkerView {
    pub state: WorkerState,
    /// The encoding every record is asked for.
    pub encoding: Encoding,
    /// How many writes to the sink have failed in a row.
    pub write_failures: nat,
}

/// The action that an encoding attempt leads to.
pub open spec fn outcome(encoded: Result<Seq<u8>, CodecError>) -> ActionView {
    match encoded {
        Ok(bytes) => ActionView::Forward(bytes),
        Err(e) => ActionView::Report(e),
    }
}

/// The worker has seen the channel closed, now or before.
pub open spec fn closing(state: WorkerState, channel: ChannelView) -> bool {
    channel.closed() || state == WorkerState::Draining
}

/// The state after one step.
pub open spec fn step_state(state: WorkerState, channel: ChannelView) -> WorkerState {
    if state == WorkerState::Terminated {
        WorkerState::Terminated
    } else if channel.queue.len() > 0 {
        if closing(state, channel) {
            WorkerState::Draining
        } else {
            WorkerState::Running
        }
    } else if closing(state, channel) {
        WorkerState::Terminated
    } else {
        WorkerState::Running
    }
}

/// The channel after one step: the oldest record is gone, unless the worker
/// had terminated.
pub open spec fn step_channel(state: WorkerState, channel: ChannelView) -> ChannelView {
    if state == WorkerState::Terminated {
        channel
    } else {
        channel.received()
    }
}

/// What one step asks for.
pub open spec fn step_action(
    state: WorkerState,
    encoding: Encoding,
    channel: ChannelView,
) -> ActionView {
    if state == WorkerState::Terminated {
        ActionView::Stop
    } else if channel.queue.len() > 0 {
        outcome(encode_spec(channel.queue[0], encoding))
    } else if closing(state, channel) {
        ActionView::Stop
    } else {
        ActionView::Wait
    }
}

/// The consumer of a channel.
pub struct EncoderWorker {
    state: WorkerState,
    encoding: Encoding,
    write_failures: u64,
}

impl View for EncoderWorker {
    type V = WorkerView;

    closed spec fn view(&self) -> WorkerView {
        WorkerView {
            state: self.state,
            encoding: self.encoding,
            write_failures: self.write_failures as nat,
        }
    }
}

impl EncoderWorker {
    /// A running worker that asks for the given encoding.
    pub fn new(encoding: Encoding) -> (worker: EncoderWorker)
        ensures
            worker@ == (WorkerView { state: WorkerState::Running, encoding, write_failures: 0 }),
    {
        EncoderWorker { state: WorkerState::Running, encoding, write_failures: 0 }
    }

    /// Where the worker is in its life.
    pub fn state(&self) -> (state: WorkerState)
        ensures
            state == self@.state,
    {
        self.state
    }

    /// The encoding every record is asked for.
    pub fn encoding(&self) -> (encoding: Encoding)
        ensures
            encoding == self@.encoding,
    {
        self.encoding
    }

    /// How many writes to the sink have failed in a row, up to `u64::MAX`.
    /// This is the health signal of the pipeline.
    pub fn write_failures(&self) -> (n: u64)
        ensures
            n == self@.write_failures,
    {
        self.write_failures
    }

    /// One step of the worker on its channel.
    ///
    /// A terminated worker stops and touches nothing. Otherwise the oldest
    /// record, if there is one, is taken and encoded: its buffer is to be
    /// forwarded, or its error reported. With nothing queued the worker
    /// terminates if the channel is closed, and waits if it is open.
    pub fn step(&mut self, channel: &mut CollectorChannel) -> (action: WorkerAction)
        ensures
            final(self)@ == (WorkerView {
                state: step_state(old(self)@.state, old(channel)@),
                ..old(self)@
            }),
            final(channel)@ == step_channel(old(self)@.state, old(channel)@),
            action@ == step_action(old(self)@.state, old(self)@.encoding, old(channel)@),
    {
        let closing = match self.state {
            WorkerState::Terminated => {
                return WorkerAction::Stop;
            },
            WorkerState::Draining => true,
            WorkerState::Running => channel.is_closed(),
        };
        match channel.receive() {
            Some(record) => {
                self.state = if closing {
                    WorkerState::Draining
                } else {
                    WorkerState::Running
                };
                match record.to_bytes(self.encoding) {
                    Ok(bytes) => WorkerAction::Forward(bytes),
                    Err(e) => WorkerAction::Report(e),
                }
            },
            None => if closing {
                self.state = WorkerState::Terminated;
                WorkerAction::Stop
            } else {
                self.state = WorkerState::Running;
                WorkerAction::Wait
            },
        }
    }

    /// Takes note of how a write to the sink went. A failed write is to be
    /// reported and counted; it never stops the worker. A write that went
    /// through clears the count.
    pub fn record_write(&mut self, delivered: bool) -> (report: Option<CodecError>)
        ensures
            final(self)@ == (WorkerView {
                write_failures: if delivered {
                    0
                } else if old(self)@.write_failures < u64::MAX {
                    old(self)@.write_failures + 1
                } else {
                    old(self)@.write_failures
                },
                ..old(self)@
            }),
            report == if delivered {
                None
            } else {
                Some(CodecError::IoFailure(IoCause::SinkWrite))
            },
    {
        if delivered {
            self.write_failures = 0;
            None
        } else {
            if self.write_failures < u64::MAX {
                self.write_failures = self.write_failures + 1;
            }
            Some(CodecError::IoFailure(IoCause::SinkWrite))
        }
    }
}

} // verus!
