//! The dispatch channel: an unbounded first-in, first-out queue that carries
//! validated paths from the accept loop to the render loop.

use std::collections::VecDeque;
use vstd::prelude::*;

verus! {

/// Mathematical model of the channel: the messages not yet consumed, oldest
/// first, and whether the consumer is still there.
pub struct ChannelModel {
    pub pending: Seq<Seq<char>>,
    pub open: bool,
}

impl ChannelModel {
    /// A channel that holds nothing and has its consumer.
    pub open spec fn empty() -> ChannelModel {
        ChannelModel { pending: Seq::empty(), open: true }
    }

    /// The channel after a send: the message joins the end of the queue if
    /// the consumer is there, and nothing changes if it is gone.
    pub open spec fn sent(self, message: Seq<char>) -> ChannelModel {
        if self.open {
            ChannelModel { pending: self.pending.push(message), ..self }
        } else {
            self
        }
    }

    /// The message that a receive returns: the oldest, if there is any.
    pub open spec fn front(self) -> Option<Seq<char>> {
        if self.pending.len() > 0 {
            Some(self.pending[0])
        } else {
            None
        }
    }

    /// The channel after a receive: without its oldest message.
    pub open spec fn received(self) -> ChannelModel {
        if self.pending.len() > 0 {
            ChannelModel { pending: self.pending.drop_first(), ..self }
        } else {
            self
        }
    }

    /// The channel after the consumer has gone.
    pub open spec fn closed(self) -> ChannelModel {
        ChannelModel { open: false, ..self }
    }

    /// The channel after `messages` were sent one after the other.
    pub open spec fn sent_all(self, messages: Seq<Seq<char>>) -> ChannelModel
        decreases messages.len(),
    {
        if messages.len() == 0 {
            self
        } else {
            self.sent(messages[0]).sent_all(messages.drop_first())
        }
    }

    /// What `count` receives return, in the order of the calls; a receive
    /// that finds the queue empty contributes nothing.
    pub open spec fn delivered(self, count: nat) -> Seq<Seq<char>>
        decreases count,
    {
        if count == 0 {
            Seq::empty()
        } else {
            match self.front() {
                Some(message) => seq![message] + self.received().delivered((count - 1) as nat),
                None => self.received().delivered((count - 1) as nat),
            }
        }
    }

    /// The channel after `count` receives.
    pub open spec fn received_times(self, count: nat) -> ChannelModel
        decreases count,
    {
        if count == 0 {
            self
        } else {
            self.received().received_times((count - 1) as nat)
        }
    }
}

/// The receipt for a message that could not be sent because the consumer is
/// gone. It hands the message back.
#[derive(Debug, PartialEq, Eq)]
pub struct Disconnected(pub String);

/// The queue between the accept loop and the render loop.
pub struct DispatchChannel {
    queue: VecDeque<String>,
    open: bool,
}

/// The texts of a queue of strings, in order.
pub open spec fn texts(queue: Seq<String>) -> Seq<Seq<char>> {
    Seq::new(queue.len(), |i: int| queue[i]@)
}

impl View for DispatchChannel {
    type V = ChannelModel;

    closed spec fn view(&self) -> ChannelModel {
        ChannelModel { pending: texts(self.queue@), open: self.open }
    }
}

impl DispatchChannel {
    /// An empty channel whose consumer is there.
    pub fn new() -> (channel: DispatchChannel)
        ensures
            channel@ == ChannelModel::empty(),
    {
        let channel = DispatchChannel { queue: VecDeque::new(), open: true };
        assert(channel@.pending =~= Seq::<Seq<char>>::empty());
        channel
    }

    /// Puts a message at the end of the queue. It never waits. If the
    /// consumer is gone the message comes back in the error and the queue is
    /// left as it was.
    pub fn send(&mut self, message: String) -> (sent: Result<(), Disconnected>)
        ensures
            final(self)@ == old(self)@.sent(message@),
            sent is Ok <==> old(self)@.open,
            sent matches Err(back) ==> back.0 == message,
    {
        if self.open {
            let ghost before = self.queue@;
            self.queue.push_back(message);
            assert(texts(self.queue@) =~= texts(before).push(message@));
            Ok(())
        } else {
            Err(Disconnected(message))
        }
    }

    /// Takes the oldest message, if there is one. It never waits and returns
    /// at most one message.
    pub fn try_receive(&mut self) -> (message: Option<String>)
        ensures
            final(self)@ == old(self)@.received(),
            match message {
                Some(m) => old(self)@.front() == Some(m@),
                None => old(self)@.front() is None,
            },
    {
        let ghost before = self.queue@;
        let message = self.queue.pop_front();
        proof {
            if before.len() > 0 {
                assert(texts(self.queue@) =~= texts(before).drop_first());
            }
        }
        message
    }

    /// Marks the consumer as gone: from now on every send fails.
    pub fn close(&mut self)
        ensures
            final(self)@ == old(self)@.closed(),
    {
        self.open = false;
    }

    /// Whether the consumer is still there.
    pub fn is_open(&self) -> (open: bool)
        ensures
            open == self@.open,
    {
        self.open
    }

    /// Number of messages waiting.
    pub fn len(&self) -> (count: usize)
        ensures
            count == self@.pending.len(),
    {
        self.queue.len()
    }
}

/// Sending a sequence of messages to an open channel appends them to the
/// queue in the order of the sends and leaves the channel open.
pub proof fn lemma_sends_append(channel: ChannelModel, messages: Seq<Seq<char>>)
    requires
        channel.open,
    ensures
        channel.sent_all(messages).pending == channel.pending + messages,
        channel.sent_all(messages).open,
    decreases messages.len(),
{
    if messages.len() > 0 {
        lemma_sends_append(channel.sent(messages[0]), messages.drop_first());
    }
}

/// Receiving `count` times, with at least that many messages waiting, returns
/// the first `count` of them in queue order and leaves the rest, in order.
pub proof fn lemma_receives_take_front(channel: ChannelModel, count: nat)
    requires
        count <= channel.pending.len(),
    ensures
        channel.delivered(count) == channel.pending.take(count as int),
        channel.received_times(count).pending == channel.pending.skip(count as int),
        channel.received_times(count).open == channel.open,
    decreases count,
{
    if count > 0 {
        let rest = channel.received();
        lemma_receives_take_front(rest, (count - 1) as nat);
        assert(seq![channel.pending[0]] + rest.pending.take(count - 1) =~= channel.pending.take(
            count as int,
        ));
    }
}

/// First in, first out, exactly once: whatever is sent to an open, empty
/// channel is what the same number of receives return, each message once and
/// in the order of the sends, and then the channel is empty.
pub proof fn lemma_fifo_exactly_once(messages: Seq<Seq<char>>)
    ensures
        ChannelModel::empty().sent_all(messages).delivered(messages.len()) == messages,
        ChannelModel::empty().sent_all(messages).received_times(messages.len()).pending.len()
            == 0,
{
    let start = ChannelModel::empty();
    lemma_sends_append(start, messages);
    lemma_receives_take_front(start.sent_all(messages), messages.len());
}

/// Once the consumer is gone, no send changes the channel.
pub proof fn lemma_closed_channel_refuses(channel: ChannelModel, message: Seq<char>)
    ensures
        channel.closed().sent(message) == channel.closed(),
{
}

} // verus!
