//! The collector channel: a bounded first-in, first-out queue of records
//! between any number of producer ends and one consumer.
//!
//! The channel never blocks. A producer that wants to wait for room waits
//! outside while `must_wait` says so, and then submits.

use std::collections::VecDeque;
use vstd::prelude::*;

use crate::messaging::data_types::{RawDataPoint, RawDataPointView};
use crate::messaging::errors::SubmitError;

verus! {

/// What a [`CollectorChannel`] stands for.
pub struct ChannelView {
    /// How many records the queue may hold.
    pub capacity: nat,
    /// The queued records, oldest first.
    pub queue: Seq<RawDataPointView>,
    /// How many producer ends are open. The channel is closed once none is.
    pub producers: nat,
}

impl ChannelView {
    /// The capacity is positive and the queue is within it.
    pub open spec fn wf(self) -> bool {
        &&& self.capacity > 0
        &&& self.queue.len() <= self.capacity
    }

    /// Every producer end has been released.
    pub open spec fn closed(self) -> bool {
        self.producers == 0
    }

    /// The queue has no room left.
    pub open spec fn full(self) -> bool {
        self.queue.len() >= self.capacity
    }

    /// Why a record submitted now would be refused, if it would.
    pub open spec fn refusal(self) -> Option<SubmitError> {
        if self.closed() {
            Some(SubmitError::Closed)
        } else if self.full() {
            Some(SubmitError::QueueFull)
        } else {
            None
        }
    }

    /// The channel after `r` has been submitted: `r` is the newest record if
    /// it was accepted, and nothing has changed if it was refused.
    pub open spec fn submitted(self, r: RawDataPointView) -> ChannelView {
        if self.refusal() is None {
            ChannelView { queue: self.queue.push(r), ..self }
        } else {
            self
        }
    }

    /// The channel after the consumer has taken the oldest record, if any.
    pub open spec fn received(self) -> ChannelView {
        if self.queue.len() > 0 {
            ChannelView { queue: self.queue.skip(1), ..self }
        } else {
            self
        }
    }

    /// The channel after one more producer end has been opened.
    pub open spec fn joined(self) -> ChannelView {
        ChannelView { producers: self.producers + 1, ..self }
    }

    /// The channel after one producer end has been released.
    pub open spec fn left(self) -> ChannelView {
        if self.closed() {
            self
        } else {
            ChannelView { producers: (self.producers - 1) as nat, ..self }
        }
    }
}

/// A bounded queue of records with a count of its open producer ends.
pub struct CollectorChannel {
    capacity: usize,
    queue: VecDeque<RawDataPoint>,
    producers: usize,
}

impl View for CollectorChannel {
    type V = ChannelView;

    closed spec fn view(&self) -> ChannelView {
        ChannelView {
            capacity: self.capacity as nat,
            queue: Seq::new(self.queue@.len(), |i: int| self.queue@[i]@),
            producers: self.producers as nat,
        }
    }
}

impl CollectorChannel {
    /// An empty channel with one open producer end. `None` if the capacity is
    /// zero.
    pub fn new(capacity: usize) -> (out: Option<CollectorChannel>)
        ensures
            match out {
                Some(channel) => capacity > 0 && channel@ == (ChannelView {
                    capacity: capacity as nat,
                    queue: Seq::empty(),
                    producers: 1,
                }),
                None => capacity == 0,
            },
    {
        if capacity == 0 {
            None
        } else {
            Some(CollectorChannel::with_capacity(capacity))
        }
    }

    /// An empty channel with one open producer end.
    pub(crate) fn with_capacity(capacity: usize) -> (channel: CollectorChannel)
        requires
            capacity > 0,
        ensures
            channel@ == (ChannelView {
                capacity: capacity as nat,
                queue: Seq::empty(),
                producers: 1,
            }),
    {
        let channel = CollectorChannel { capacity, queue: VecDeque::new(), producers: 1 };
        assert(channel@.queue =~= Seq::empty());
        channel
    }

    /// How many records the queue may hold.
    pub fn capacity(&self) -> (n: usize)
        ensures
            n == self@.capacity,
    {
        self.capacity
    }

    /// How many records are queued.
    pub fn len(&self) -> (n: usize)
        ensures
            n == self@.queue.len(),
    {
        self.queue.len()
    }

    /// Whether no record is queued.
    pub fn is_empty(&self) -> (empty: bool)
        ensures
            empty == (self@.queue.len() == 0),
    {
        self.queue.len() == 0
    }

    /// Whether the queue has no room left.
    pub fn is_full(&self) -> (full: bool)
        ensures
            full == self@.full(),
    {
        self.queue.len() >= self.capacity
    }

    /// How many producer ends are open.
    pub fn producers(&self) -> (n: usize)
        ensures
            n == self@.producers,
    {
        self.producers
    }

    /// Whether every producer end has been released.
    pub fn is_closed(&self) -> (closed: bool)
        ensures
            closed == self@.closed(),
    {
        self.producers == 0
    }

    /// Whether a producer that wants its record queued has to wait: the
    /// channel is open and full. A producer that waits until this is false
    /// and then submits is not refused for want of room.
    pub fn must_wait(&self) -> (wait: bool)
        ensures
            wait == (self@.refusal() == Some(SubmitError::QueueFull)),
    {
        self.producers != 0 && self.queue.len() >= self.capacity
    }

    /// Queues the record behind all that are queued, or refuses it: with
    /// `Closed` on a closed channel, else with `QueueFull` on a full one. A
    /// refusal changes nothing.
    pub fn try_submit(&mut self, record: RawDataPoint) -> (out: Result<(), SubmitError>)
        ensures
            final(self)@ == old(self)@.submitted(record@),
            match out {
                Ok(_) => old(self)@.refusal() is None,
                Err(e) => old(self)@.refusal() == Some(e),
            },
    {
        if self.producers == 0 {
            Err(SubmitError::Closed)
        } else if self.queue.len() >= self.capacity {
            Err(SubmitError::QueueFull)
        } else {
            self.queue.push_back(record);
            assert(self@.queue =~= old(self)@.queue.push(record@));
            Ok(())
        }
    }

    /// Takes the oldest record, if any is queued.
    pub fn receive(&mut self) -> (out: Option<RawDataPoint>)
        ensures
            final(self)@ == old(self)@.received(),
            match out {
                Some(record) => old(self)@.queue.len() > 0 && record@ == old(self)@.queue[0],
                None => old(self)@.queue.len() == 0,
            },
    {
        let out = self.queue.pop_front();
        proof {
            if out is Some {
                assert(self@.queue =~= old(self)@.queue.skip(1));
            } else {
                assert(self@.queue =~= old(self)@.queue);
            }
        }
        out
    }

    /// Opens one more producer end, and says whether it did. None can be
    /// opened on a closed channel, nor beyond `usize::MAX` open ends.
    pub fn join(&mut self) -> (opened: bool)
        ensures
            opened == (0 < old(self)@.producers < usize::MAX),
            final(self)@ == if opened {
                old(self)@.joined()
            } else {
                old(self)@
            },
    {
        if self.producers != 0 && self.producers < usize::MAX {
            self.producers = self.producers + 1;
            true
        } else {
            false
        }
    }

    /// Releases one producer end. Releasing the last one closes the channel
    /// for good.
    pub fn leave(&mut self)
        ensures
            final(self)@ == old(self)@.left(),
    {
        if self.producers != 0 {
            self.producers = self.producers - 1;
        }
    }
}

} // verus!
