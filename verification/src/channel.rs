//! The conduit between a worker and the state it reports to.
//!
//! A channel lives for one operation. The worker's side pushes samples and
//! finally closes it; the receiving side looks only at the newest sample and
//! drops whatever queued up before it, so a fast worker can never make the
//! front-end lag behind.

use crate::progress::Sample;
use vstd::prelude::*;

verus! {

/// The mathematical value of a [`ProgressChannel`].
pub struct ChannelModel {
    /// The samples that were pushed and not yet looked at, oldest first.
    pub pending: Seq<Sample>,
    /// Whether the sending side is gone.
    pub disconnected: bool,
}

impl ChannelModel {
    /// An open channel that holds nothing.
    pub open spec fn fresh() -> ChannelModel {
        ChannelModel { pending: Seq::empty(), disconnected: false }
    }

    /// The channel after the sender pushed `sample`. A sender that is gone
    /// sends nothing.
    pub open spec fn pushed(self, sample: Sample) -> ChannelModel {
        if self.disconnected {
            self
        } else {
            ChannelModel { pending: self.pending.push(sample), disconnected: false }
        }
    }

    /// The channel after the sender went away.
    pub open spec fn shut(self) -> ChannelModel {
        ChannelModel { pending: self.pending, disconnected: true }
    }

    /// The newest sample that waits in the channel.
    pub open spec fn latest(self) -> Option<Sample> {
        if self.pending.len() > 0 {
            Some(self.pending.last())
        } else {
            None
        }
    }

    /// The channel after the receiver looked at it: nothing waits any more.
    pub open spec fn emptied(self) -> ChannelModel {
        ChannelModel { pending: Seq::empty(), disconnected: self.disconnected }
    }

    /// The channel after the sender pushed all of `samples` in order.
    pub open spec fn pushed_all(self, samples: Seq<Sample>) -> ChannelModel
        decreases samples.len(),
    {
        if samples.len() == 0 {
            self
        } else {
            self.pushed_all(samples.drop_last()).pushed(samples.last())
        }
    }
}

/// Receiving buffer for the samples of one operation.
#[derive(Debug)]
pub struct ProgressChannel {
    pending: Vec<Sample>,
    disconnected: bool,
}

impl View for ProgressChannel {
    type V = ChannelModel;

    closed spec fn view(&self) -> ChannelModel {
        ChannelModel { pending: self.pending@, disconnected: self.disconnected }
    }
}

impl ProgressChannel {
    /// Opens a channel for a worker that is about to start.
    pub fn new() -> (channel: ProgressChannel)
        ensures
            channel@ == ChannelModel::fresh(),
    {
        ProgressChannel { pending: Vec::new(), disconnected: false }
    }

    /// Queues a sample of the worker. Ignored once the channel is closed.
    pub fn push(&mut self, sample: Sample)
        ensures
            final(self)@ == old(self)@.pushed(sample),
    {
        if !self.disconnected {
            self.pending.push(sample);
        }
    }

    /// Records that the worker is gone. What it pushed before stays.
    pub fn close(&mut self)
        ensures
            final(self)@ == old(self)@.shut(),
    {
        self.disconnected = true;
    }

    /// Whether the worker is gone.
    pub fn is_closed(&self) -> (r: bool)
        ensures
            r == self@.disconnected,
    {
        self.disconnected
    }

    /// The number of samples that wait to be looked at.
    pub fn pending(&self) -> (n: usize)
        ensures
            n == self@.pending.len(),
    {
        self.pending.len()
    }

    /// Takes the newest waiting sample and drops all older ones.
    pub fn take_latest(&mut self) -> (sample: Option<Sample>)
        ensures
            sample == old(self)@.latest(),
            final(self)@ == old(self)@.emptied(),
    {
        let n = self.pending.len();
        let sample = if n > 0 {
            Some(self.pending[n - 1])
        } else {
            None
        };
        self.pending.clear();
        sample
    }
}

/// However many samples queue up in an open channel, the receiver sees the
/// last one pushed, and none where nothing was pushed into an empty channel.
pub proof fn lemma_latest_of_pushed_all(channel: ChannelModel, samples: Seq<Sample>)
    requires
        !channel.disconnected,
    ensures
        !channel.pushed_all(samples).disconnected,
        channel.pushed_all(samples).pending == channel.pending + samples,
        samples.len() > 0 ==> channel.pushed_all(samples).latest() == Some(samples.last()),
        samples.len() == 0 ==> channel.pushed_all(samples) == channel,
    decreases samples.len(),
{
    if samples.len() > 0 {
        lemma_latest_of_pushed_all(channel, samples.drop_last());
        assert(channel.pending + samples =~= (channel.pending + samples.drop_last()).push(
            samples.last(),
        ));
    } else {
        assert(channel.pending + samples =~= channel.pending);
    }
}

} // verus!
