//! The collection pipeline: channel, producer handles and encoder worker.
//!
//! Nothing here blocks, starts a thread or reads a clock. The pipeline is a
//! value that its owner shares between the producers and the one thread that
//! steps the worker; waiting for room or for records is done around it, and
//! the instant of a handle is read by whoever asks for the handle.

use vstd::prelude::*;

use crate::collector::channel::{ChannelView, CollectorChannel};
use crate::collector::worker::{
    step_action, step_channel, step_state, ActionView, EncoderWorker, WorkerAction, WorkerState,
    WorkerView,
};
pub use crate::messaging::data_types::DataValue;
use crate::messaging::data_types::{
    DataValueView, Encoding, RawDataPoint, RawDataPointView, Timestamp,
};
use crate::messaging::errors::{CodecError, IoCause, SubmitError};

pub mod channel;
pub mod laws;
pub mod worker;

verus! {

/// The capacity of the channel in the reference configuration.
pub const DEFAULT_CAPACITY: usize = 1000;

/// What a pipeline is made with.
#[derive(Clone, Copy, Debug, PartialEq, Eq, Structural)]
pub struct PipelineConfig {
    /// How many records the channel may hold; more than none.
    pub capacity: usize,
    /// The encoding the worker asks for.
    pub encoding: Encoding,
}

/// What a [`CollectorThread`] stands for.
pub struct PipelineView {
    pub channel: ChannelView,
    pub worker: WorkerView,
    /// The pipeline still holds the producer end it was made with.
    pub own_end: bool,
}

impl PipelineView {
    /// The pipeline as it is made.
    pub open spec fn fresh(config: PipelineConfig) -> PipelineView {
        PipelineView {
            channel: ChannelView {
                capacity: config.capacity as nat,
                queue: Seq::empty(),
                producers: 1,
            },
            worker: WorkerView {
                state: WorkerState::Running,
                encoding: config.encoding,
                write_failures: 0,
            },
            own_end: true,
        }
    }

    /// The channel is within its capacity; the worker has left `Running` only
    /// on a closed channel and has terminated only on an empty one; and the
    /// pipeline's own producer end, while held, keeps the channel open.
    pub open spec fn wf(self) -> bool {
        &&& self.channel.wf()
        &&& (self.worker.state != WorkerState::Running ==> self.channel.closed())
        &&& (self.worker.state == WorkerState::Terminated ==> self.channel.queue.len() == 0)
        &&& (self.own_end ==> !self.channel.closed())
    }

    /// A handle can be made: the channel is open and can count one more end.
    pub open spec fn can_join(self) -> bool {
        0 < self.channel.producers < usize::MAX
    }

    /// The pipeline after a handle has been asked for.
    pub open spec fn joined(self) -> PipelineView {
        if self.can_join() {
            PipelineView { channel: self.channel.joined(), ..self }
        } else {
            self
        }
    }

    /// How many producer ends are held by handles.
    pub open spec fn handles(self) -> nat {
        if self.own_end && self.channel.producers > 0 {
            (self.channel.producers - 1) as nat
        } else {
            self.channel.producers
        }
    }

    /// The pipeline after a handle has been released. The pipeline's own end
    /// is not a handle's to release.
    pub open spec fn left(self) -> PipelineView {
        if self.handles() > 0 {
            PipelineView { channel: self.channel.left(), ..self }
        } else {
            self
        }
    }

    /// The pipeline after its own producer end has been released.
    pub open spec fn shut(self) -> PipelineView {
        if self.own_end {
            PipelineView { channel: self.channel.left(), own_end: false, ..self }
        } else {
            self
        }
    }

    /// The pipeline after a record has been submitted.
    pub open spec fn submitted(self, r: RawDataPointView) -> PipelineView {
        PipelineView { channel: self.channel.submitted(r), ..self }
    }

    /// What the next step of the worker asks for.
    pub open spec fn action(self) -> ActionView {
        step_action(self.worker.state, self.worker.encoding, self.channel)
    }

    /// The pipeline after one step of its worker.
    pub open spec fn stepped(self) -> PipelineView {
        PipelineView {
            channel: step_channel(self.worker.state, self.channel),
            worker: WorkerView {
                state: step_state(self.worker.state, self.channel),
                ..self.worker
            },
            ..self
        }
    }
}

/// The record that a handle made at `t` builds from what it is given.
pub open spec fn stamped(
    t: Timestamp,
    location: Seq<char>,
    path: Seq<char>,
    component: Seq<char>,
    value: DataValueView,
) -> RawDataPointView {
    RawDataPointView { location, path, component, timestamp: t, value }
}

/// A pipeline: the channel, its worker, and the producer end that the
/// pipeline itself holds until it is closed.
pub struct CollectorThread {
    channel: CollectorChannel,
    worker: EncoderWorker,
    own_end: bool,
}

impl View for CollectorThread {
    type V = PipelineView;

    closed spec fn view(&self) -> PipelineView {
        PipelineView { channel: self.channel@, worker: self.worker@, own_end: self.own_end }
    }
}

impl CollectorThread {
    /// A pipeline in the reference configuration: room for
    /// `DEFAULT_CAPACITY` records, encoded as `Packed`.
    pub fn spawn() -> (pipeline: CollectorThread)
        ensures
            pipeline@ == PipelineView::fresh(
                PipelineConfig { capacity: DEFAULT_CAPACITY, encoding: Encoding::Packed },
            ),
            pipeline@.wf(),
    {
        CollectorThread {
            channel: CollectorChannel::with_capacity(DEFAULT_CAPACITY),
            worker: EncoderWorker::new(Encoding::Packed),
            own_end: true,
        }
    }

    /// A pipeline in the given configuration. `None` if the capacity is zero.
    pub fn with_config(config: PipelineConfig) -> (out: Option<CollectorThread>)
        ensures
            match out {
                Some(pipeline) => config.capacity > 0 && pipeline@ == PipelineView::fresh(config)
                    && pipeline@.wf(),
                None => config.capacity == 0,
            },
    {
        if config.capacity == 0 {
            None
        } else {
            Some(
                CollectorThread {
                    channel: CollectorChannel::with_capacity(config.capacity),
                    worker: EncoderWorker::new(config.encoding),
                    own_end: true,
                },
            )
        }
    }

    /// Makes a handle that stamps its records with `now`, the instant that
    /// its maker has just read from the clock. The instant is read once, here,
    /// and never again. `None` if the channel is closed or cannot count one
    /// more producer end.
    pub fn new_collector(&mut self, now: Timestamp) -> (out: Option<Collector>)
        ensures
            final(self)@ == old(self)@.joined(),
            match out {
                Some(handle) => old(self)@.can_join() && handle@ == now,
                None => !old(self)@.can_join(),
            },
    {
        if self.channel.join() {
            Some(Collector { timestamp: now })
        } else {
            None
        }
    }

    /// Queues the record, or refuses it as the channel does.
    pub fn try_submit(&mut self, record: RawDataPoint) -> (out: Result<(), SubmitError>)
        ensures
            final(self)@ == old(self)@.submitted(record@),
            match out {
                Ok(_) => old(self)@.channel.refusal() is None,
                Err(e) => old(self)@.channel.refusal() == Some(e),
            },
    {
        self.channel.try_submit(record)
    }

    /// One step of the worker on the channel.
    pub fn step(&mut self) -> (action: WorkerAction)
        ensures
            final(self)@ == old(self)@.stepped(),
            action@ == old(self)@.action(),
    {
        self.worker.step(&mut self.channel)
    }

    /// Takes note of how a write to the sink went; see
    /// [`EncoderWorker::record_write`].
    pub fn record_write(&mut self, delivered: bool) -> (report: Option<CodecError>)
        ensures
            final(self)@.channel == old(self)@.channel,
            final(self)@.own_end == old(self)@.own_end,
            final(self)@.worker == (WorkerView {
                write_failures: if delivered {
                    0
                } else if old(self)@.worker.write_failures < u64::MAX {
                    old(self)@.worker.write_failures + 1
                } else {
                    old(self)@.worker.write_failures
                },
                ..old(self)@.worker
            }),
            report == if delivered {
                None
            } else {
                Some(CodecError::IoFailure(IoCause::SinkWrite))
            },
    {
        self.worker.record_write(delivered)
    }

    /// Releases the producer end that the pipeline was made with. Once every
    /// handle is released too, the channel is closed and the worker drains
    /// it. Closing twice is closing once.
    pub fn close(&mut self)
        ensures
            final(self)@ == old(self)@.shut(),
    {
        if self.own_end {
            self.own_end = false;
            self.channel.leave();
        }
    }

    /// Where the worker is in its life.
    pub fn state(&self) -> (state: WorkerState)
        ensures
            state == self@.worker.state,
    {
        self.worker.state()
    }

    /// How many records are queued.
    pub fn queued(&self) -> (n: usize)
        ensures
            n == self@.channel.queue.len(),
    {
        self.channel.len()
    }

    /// Whether a record submitted now would find no room.
    pub fn is_full(&self) -> (full: bool)
        ensures
            full == self@.channel.full(),
    {
        self.channel.is_full()
    }

    /// Whether every producer end has been released.
    pub fn is_closed(&self) -> (closed: bool)
        ensures
            closed == self@.channel.closed(),
    {
        self.channel.is_closed()
    }

    /// Whether a producer that wants its record queued has to wait: the
    /// channel is open and full.
    pub fn must_wait(&self) -> (wait: bool)
        ensures
            wait == (self@.channel.refusal() == Some(SubmitError::QueueFull)),
    {
        self.channel.must_wait()
    }

    /// How many writes to the sink have failed in a row.
    pub fn write_failures(&self) -> (n: u64)
        ensures
            n == self@.worker.write_failures,
    {
        self.worker.write_failures()
    }
}

/// A producer's handle: one producer end of the channel, and the instant the
/// handle was made, with which it stamps every record.
#[derive(Debug)]
pub struct Collector {
    timestamp: Timestamp,
}

impl View for Collector {
    type V = Timestamp;

    closed spec fn view(&self) -> Timestamp {
        self.timestamp
    }
}

impl Collector {
    /// The instant the handle was made.
    pub fn timestamp(&self) -> (t: Timestamp)
        ensures
            t == self@,
    {
        self.timestamp
    }

    /// Builds the record for an observation, stamped with the instant the
    /// handle was made.
    pub fn stamp(&self, location: &str, path: &str, component: &str, value: DataValue) -> (record:
        RawDataPoint)
        ensures
            record@ == stamped(self@, location@, path@, component@, value@),
    {
        RawDataPoint {
            location: location.to_owned(),
            path: path.to_owned(),
            component: component.to_owned(),
            timestamp: self.timestamp,
            value,
        }
    }

    /// Stamps an observation and submits it. The handle is left as it was.
    /// This never waits: on a full queue the observation is refused with
    /// `QueueFull`. A producer that wants to wait does so before it calls,
    /// while [`CollectorThread::must_wait`] says so.
    pub fn collect(
        &mut self,
        pipeline: &mut CollectorThread,
        location: &str,
        path: &str,
        component: &str,
        value: DataValue,
    ) -> (out: Result<(), SubmitError>)
        ensures
            final(self)@ == old(self)@,
            final(pipeline)@ == old(pipeline)@.submitted(
                stamped(old(self)@, location@, path@, component@, value@),
            ),
            match out {
                Ok(_) => old(pipeline)@.channel.refusal() is None,
                Err(e) => old(pipeline)@.channel.refusal() == Some(e),
            },
    {
        let record = self.stamp(location, path, component, value);
        pipeline.try_submit(record)
    }

    /// Makes a second handle with the same instant and a producer end of its
    /// own. `None` where [`CollectorThread::new_collector`] gives none.
    pub fn duplicate(&self, pipeline: &mut CollectorThread) -> (out: Option<Collector>)
        ensures
            final(pipeline)@ == old(pipeline)@.joined(),
            match out {
                Some(handle) => old(pipeline)@.can_join() && handle@ == self@,
                None => !old(pipeline)@.can_join(),
            },
    {
        pipeline.new_collector(self.timestamp)
    }

    /// Releases the handle and its producer end.
    pub fn close(self, pipeline: &mut CollectorThread)
        ensures
            final(pipeline)@ == old(pipeline)@.left(),
    {
        let held = pipeline.channel.producers();
        if held > 1 || (held == 1 && !pipeline.own_end) {
            pipeline.channel.leave();
        }
    }
}

} // verus!
