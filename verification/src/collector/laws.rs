//! What holds of the channel, the handles and the worker, in every state.

use vstd::prelude::*;

use crate::collector::channel::ChannelView;
use crate::collector::worker::{outcome, step_state, ActionView, WorkerState};
use crate::collector::{stamped, PipelineConfig, PipelineView};
use crate::messaging::codec::encode_spec;
use crate::messaging::data_types::{DataValueView, RawDataPointView, Timestamp};
use crate::messaging::errors::SubmitError;

verus! {

/// The channel after the records of `rs` have been submitted one after
/// another, with nothing received in between.
pub open spec fn submitted_all(channel: ChannelView, rs: Seq<RawDataPointView>) -> ChannelView
    decreases rs.len(),
{
    if rs.len() == 0 {
        channel
    } else {
        submitted_all(channel, rs.drop_last()).submitted(rs.last())
    }
}

/// The pipeline after `k` steps of its worker, with nothing else done in
/// between.
pub open spec fn stepped_times(p: PipelineView, k: nat) -> PipelineView
    decreases k,
{
    if k == 0 {
        p
    } else {
        stepped_times(p, (k - 1) as nat).stepped()
    }
}

/// How far the worker is in its life.
pub open spec fn rank(state: WorkerState) -> nat {
    match state {
        WorkerState::Running => 0,
        WorkerState::Draining => 1,
        WorkerState::Terminated => 2,
    }
}

/// First in, first out: records submitted to an open channel that has room
/// for all of them are queued behind what was queued, in the order in which
/// they were submitted.
pub proof fn lemma_fifo(channel: ChannelView, rs: Seq<RawDataPointView>)
    requires
        !channel.closed(),
        channel.queue.len() + rs.len() <= channel.capacity,
    ensures
        submitted_all(channel, rs) == (ChannelView { queue: channel.queue + rs, ..channel }),
    decreases rs.len(),
{
    if rs.len() == 0 {
        assert(channel.queue + rs =~= channel.queue);
    } else {
        lemma_fifo(channel, rs.drop_last());
        assert((channel.queue + rs.drop_last()).push(rs.last()) =~= channel.queue + rs);
    }
}

/// Backpressure: with no consumer receiving, an open channel takes as many
/// records as it has room for, and refuses the next with `QueueFull`,
/// unchanged. A producer that would rather wait than be refused has to wait
/// at that record.
pub proof fn lemma_backpressure(channel: ChannelView, rs: Seq<RawDataPointView>)
    requires
        channel.wf(),
        !channel.closed(),
        rs.len() == channel.capacity - channel.queue.len() + 1,
    ensures
        submitted_all(channel, rs.drop_last()).queue == channel.queue + rs.drop_last(),
        submitted_all(channel, rs.drop_last()).refusal() == Some(SubmitError::QueueFull),
        submitted_all(channel, rs) == submitted_all(channel, rs.drop_last()),
{
    lemma_fifo(channel, rs.drop_last());
}

/// Fixed handle timestamp: whatever a handle made at `t` is given, and
/// whatever state the pipeline is in when it is given it, a record that is
/// accepted is queued with `t` as its timestamp. So any two records of one
/// handle carry the same timestamp.
pub proof fn lemma_fixed_timestamp(
    t: Timestamp,
    p: PipelineView,
    location: Seq<char>,
    path: Seq<char>,
    component: Seq<char>,
    value: DataValueView,
)
    requires
        p.channel.refusal() is None,
    ensures
        p.submitted(stamped(t, location, path, component, value)).channel.queue.last().timestamp
            == t,
{
}

/// The worker never goes back: a step leaves it where it is or moves it
/// forward.
pub proof fn lemma_worker_never_returns(state: WorkerState, channel: ChannelView)
    ensures
        rank(step_state(state, channel)) >= rank(state),
{
}

/// The worker waits only while it is running on an open channel with
/// nothing queued. It never waits for a record that cannot come.
pub proof fn lemma_waits_only_when_open(p: PipelineView)
    ensures
        p.action() == ActionView::Wait <==> p.worker.state == WorkerState::Running
            && !p.channel.closed() && p.channel.queue.len() == 0,
{
}

/// A closed channel stays closed, whatever is done to the pipeline.
pub proof fn lemma_closed_for_good(p: PipelineView, r: RawDataPointView)
    requires
        p.channel.closed(),
    ensures
        p.joined().channel.closed(),
        p.left().channel.closed(),
        p.shut().channel.closed(),
        p.submitted(r).channel.closed(),
        p.stepped().channel.closed(),
{
}

/// A pipeline with room for a record is made well-formed.
pub proof fn lemma_fresh_wf(config: PipelineConfig)
    requires
        config.capacity > 0,
    ensures
        PipelineView::fresh(config).wf(),
{
}

/// Whatever is done to a well-formed pipeline leaves it well-formed.
pub proof fn lemma_wf_preserved(p: PipelineView, r: RawDataPointView)
    requires
        p.wf(),
    ensures
        p.joined().wf(),
        p.left().wf(),
        p.shut().wf(),
        p.submitted(r).wf(),
        p.stepped().wf(),
{
}

/// Releasing every producer end is the one signal to shut down: the channel
/// of a well-formed pipeline is closed exactly when the pipeline has
/// released its own end and no handle holds one, and only then does a step
/// move the worker out of `Running`.
pub proof fn lemma_closed_when_all_released(p: PipelineView)
    requires
        p.wf(),
    ensures
        p.channel.closed() <==> !p.own_end && p.handles() == 0,
        p.stepped().worker.state != WorkerState::Running ==> p.channel.closed(),
{
}

/// Nothing is queued behind a worker that has terminated: every record
/// submitted then is refused with `Closed`.
pub proof fn lemma_terminated_refuses(p: PipelineView, r: RawDataPointView)
    requires
        p.wf(),
        p.worker.state == WorkerState::Terminated,
    ensures
        p.channel.refusal() == Some(SubmitError::Closed),
        p.submitted(r) == p,
{
}

/// The worker takes records in the order in which they are queued: as long
/// as records are left, its next step takes the oldest of them and asks for
/// what encoding that record leads to.
pub proof fn lemma_encoded_in_order(p: PipelineView, k: nat)
    requires
        p.worker.state != WorkerState::Terminated,
        k < p.channel.queue.len(),
    ensures
        stepped_times(p, k).worker.state != WorkerState::Terminated,
        stepped_times(p, k).worker.encoding == p.worker.encoding,
        stepped_times(p, k).channel == (ChannelView {
            queue: p.channel.queue.skip(k as int),
            ..p.channel
        }),
        stepped_times(p, k).action() == outcome(
            encode_spec(p.channel.queue[k as int], p.worker.encoding),
        ),
    decreases k,
{
    if k == 0 {
        assert(p.channel.queue.skip(0) =~= p.channel.queue);
    } else {
        lemma_encoded_in_order(p, (k - 1) as nat);
        assert(p.channel.queue.skip(k - 1).skip(1) =~= p.channel.queue.skip(k as int));
    }
}

/// Submit order is encode order: when records are submitted to an empty open
/// channel that has room for them, and the worker is then stepped, its steps
/// are the encoding attempts on those records in the order in which they
/// were submitted.
pub proof fn lemma_encoded_as_submitted(p: PipelineView, rs: Seq<RawDataPointView>, k: nat)
    requires
        p.worker.state != WorkerState::Terminated,
        !p.channel.closed(),
        p.channel.queue.len() == 0,
        rs.len() <= p.channel.capacity,
        k < rs.len(),
    ensures
        stepped_times(PipelineView { channel: submitted_all(p.channel, rs), ..p }, k).action()
            == outcome(encode_spec(rs[k as int], p.worker.encoding)),
{
    lemma_fifo(p.channel, rs);
    assert(p.channel.queue + rs =~= rs);
    lemma_encoded_in_order(PipelineView { channel: submitted_all(p.channel, rs), ..p }, k);
}

/// Graceful drain: once the channel is closed with `n` records queued, the
/// next `n` steps of the worker are the encoding attempts on those records,
/// one each and in order, and the step after them terminates the worker, not
/// one step earlier.
pub proof fn lemma_graceful_drain(p: PipelineView)
    requires
        p.channel.closed(),
        p.worker.state != WorkerState::Terminated,
    ensures
        forall|k: nat|
            k < p.channel.queue.len() ==> #[trigger] stepped_times(p, k).action() == outcome(
                encode_spec(p.channel.queue[k as int], p.worker.encoding),
            ),
        forall|k: nat|
            k <= p.channel.queue.len() ==> (#[trigger] stepped_times(p, k)).worker.state
                != WorkerState::Terminated,
        stepped_times(p, p.channel.queue.len()).action() == ActionView::Stop,
        stepped_times(p, p.channel.queue.len() + 1).worker.state == WorkerState::Terminated,
        stepped_times(p, p.channel.queue.len() + 1).channel.queue.len() == 0,
{
    let n = p.channel.queue.len();
    assert forall|k: nat| k < n implies #[trigger] stepped_times(p, k).action() == outcome(
        encode_spec(p.channel.queue[k as int], p.worker.encoding),
    ) by {
        lemma_encoded_in_order(p, k);
    }
    lemma_drained(p, n);
    assert forall|k: nat| k <= n implies (#[trigger] stepped_times(p, k)).worker.state
        != WorkerState::Terminated by {
        lemma_drained(p, k);
    }
}

/// After `k` steps on a closed channel that held at least `k` records, those
/// `k` are gone and the worker has not terminated.
proof fn lemma_drained(p: PipelineView, k: nat)
    requires
        p.channel.closed(),
        p.worker.state != WorkerState::Terminated,
        k <= p.channel.queue.len(),
    ensures
        stepped_times(p, k).worker.state != WorkerState::Terminated,
        stepped_times(p, k).channel == (ChannelView {
            queue: p.channel.queue.skip(k as int),
            ..p.channel
        }),
{
    if k == 0 {
        assert(p.channel.queue.skip(0) =~= p.channel.queue);
    } else {
        lemma_encoded_in_order(p, (k - 1) as nat);
        assert(p.channel.queue.skip(k - 1).skip(1) =~= p.channel.queue.skip(k as int));
    }
}

} // verus!
