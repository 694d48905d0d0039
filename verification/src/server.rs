//! The serving side of the rendezvous: what the accept loop decides for each
//! connection. Reading from the socket, looking for the file and writing the
//! answer are done by the caller; the decisions are made here.

use crate::channel::{lemma_fifo_exactly_once, ChannelModel, DispatchChannel};
use crate::protocol::{decode_payload, payload_path, Acknowledgment, ProtocolError};
use crate::views::file_view;
use vstd::prelude::*;

verus! {

/// Why a connection is answered with `ERR`.
#[derive(Clone, Copy, Debug, PartialEq, Eq, Structural)]
pub enum Refusal {
    /// Reading from the connection failed.
    ReadFailed,
    /// The payload is not a path message.
    Protocol(ProtocolError),
    /// The path does not name an existing file.
    Missing,
    /// The render loop is gone, so nobody would consume the path.
    ConsumerGone,
}

/// The path that a connection offers, or the reason to refuse it before the
/// file system is consulted. `read` is what reading the connection gave: the
/// bytes, or the reason why reading failed. The reason is for the log; every
/// failed read is refused alike.
pub open spec fn screened(read: Result<Seq<u8>, Seq<char>>) -> Result<Seq<char>, Refusal> {
    match read {
        Err(_) => Err(Refusal::ReadFailed),
        Ok(bytes) => match payload_path(bytes) {
            Ok(path) => Ok(path),
            Err(e) => Err(Refusal::Protocol(e)),
        },
    }
}

/// The channel and the outcome after a screened path has been checked
/// against the file system: a missing file is refused and the channel stays
/// as it was; an existing one is queued if the consumer is there.
pub open spec fn forwarded(channel: ChannelModel, path: Seq<char>, exists: bool) -> (
    ChannelModel,
    Result<(), Refusal>,
) {
    if !exists {
        (channel, Err(Refusal::Missing))
    } else if !channel.open {
        (channel, Err(Refusal::ConsumerGone))
    } else {
        (channel.sent(path), Ok(()))
    }
}

/// The answer for an outcome: `OK` if the path was queued, `ERR` otherwise.
pub open spec fn answer(outcome: Result<(), Refusal>) -> Acknowledgment {
    match outcome {
        Ok(_) => Acknowledgment::Accepted,
        Err(_) => Acknowledgment::Rejected,
    }
}

/// The channel and the answer after one whole connection. `exists` says
/// whether the offered path, if the payload holds one, names an existing
/// file.
pub open spec fn served(
    channel: ChannelModel,
    read: Result<Seq<u8>, Seq<char>>,
    exists: bool,
) -> (ChannelModel, Acknowledgment) {
    match screened(read) {
        Err(refusal) => (channel, Acknowledgment::Rejected),
        Ok(path) => {
            let (next, outcome) = forwarded(channel, path, exists);
            (next, answer(outcome))
        },
    }
}

/// The channel after a run of connections, one for each of `payloads` in
/// order, each offering a file that exists.
pub open spec fn served_all(channel: ChannelModel, payloads: Seq<Seq<u8>>) -> ChannelModel
    decreases payloads.len(),
{
    if payloads.len() == 0 {
        channel
    } else {
        served_all(served(channel, Ok(payloads[0]), true).0, payloads.drop_first())
    }
}

/// The paths that a run of payloads carries, in order.
pub open spec fn paths_of(payloads: Seq<Seq<u8>>) -> Seq<Seq<char>> {
    Seq::new(payloads.len(), |i: int| payload_path(payloads[i])->Ok_0)
}

/// The view of a screening result.
pub open spec fn screening_view(r: Result<String, Refusal>) -> Result<Seq<char>, Refusal> {
    match r {
        Ok(path) => Ok(path@),
        Err(refusal) => Err(refusal),
    }
}

/// First step for a connection: reads the path out of what was received.
/// `read` holds the bytes of the payload, or the reason why reading failed.
pub fn screen(read: Result<Vec<u8>, String>) -> (offer: Result<String, Refusal>)
    ensures
        screening_view(offer) == screened(file_view(read)),
{
    match read {
        Err(_) => Err(Refusal::ReadFailed),
        Ok(bytes) => match decode_payload(bytes.as_slice()) {
            Ok(path) => Ok(path),
            Err(e) => Err(Refusal::Protocol(e)),
        },
    }
}

/// Second step for a connection: queues the path for the render loop if the
/// file exists and the consumer is there.
pub fn forward(channel: &mut DispatchChannel, path: String, exists: bool) -> (outcome: Result<
    (),
    Refusal,
>)
    ensures
        (final(channel)@, outcome) == forwarded(old(channel)@, path@, exists),
{
    if !exists {
        return Err(Refusal::Missing);
    }
    match channel.send(path) {
        Ok(()) => Ok(()),
        Err(_) => Err(Refusal::ConsumerGone),
    }
}

/// Last step for a connection: the answer to write.
pub fn acknowledge(outcome: &Result<(), Refusal>) -> (ack: Acknowledgment)
    ensures
        ack == answer(*outcome),
{
    match outcome {
        Ok(_) => Acknowledgment::Accepted,
        Err(_) => Acknowledgment::Rejected,
    }
}

/// A payload that is not a path message, or that names a file that does not
/// exist, is answered with `ERR` and leaves the channel exactly as it was.
/// The connection after it is served like any other: an existing path that
/// arrives next is queued behind what was already waiting and answered with
/// `OK`.
pub proof fn lemma_refusal_leaves_server_available(
    channel: ChannelModel,
    bad: Result<Seq<u8>, Seq<char>>,
    good: Seq<u8>,
)
    requires
        channel.open,
        payload_path(good) is Ok,
    ensures
        served(channel, bad, false) == (channel, Acknowledgment::Rejected),
        screened(bad) is Err ==> served(channel, bad, true) == (
            channel,
            Acknowledgment::Rejected,
        ),
        served(served(channel, bad, false).0, Ok(good), true) == (
            channel.sent(payload_path(good)->Ok_0),
            Acknowledgment::Accepted,
        ),
{
}

/// The answer is `OK` exactly when the path was put on the queue: the payload
/// holds a path, the file exists and the consumer is there.
pub proof fn lemma_accepted_iff_queued(
    channel: ChannelModel,
    read: Result<Seq<u8>, Seq<char>>,
    exists: bool,
)
    ensures
        served(channel, read, exists).1 == Acknowledgment::Accepted <==> (screened(read) is Ok
            && exists && channel.open),
        served(channel, read, exists).1 == Acknowledgment::Accepted ==> served(
            channel,
            read,
            exists,
        ).0.pending == channel.pending.push(screened(read)->Ok_0),
        served(channel, read, exists).1 == Acknowledgment::Rejected ==> served(
            channel,
            read,
            exists,
        ).0 == channel,
{
}

/// Serving a run of path messages for existing files amounts to sending
/// their paths, in the order of the connections.
pub proof fn lemma_serving_sends_in_order(channel: ChannelModel, payloads: Seq<Seq<u8>>)
    requires
        channel.open,
        forall|i: int| 0 <= i < payloads.len() ==> payload_path(#[trigger] payloads[i]) is Ok,
    ensures
        served_all(channel, payloads) == channel.sent_all(paths_of(payloads)),
    decreases payloads.len(),
{
    if payloads.len() > 0 {
        let rest = payloads.drop_first();
        assert forall|i: int| 0 <= i < rest.len() implies payload_path(#[trigger] rest[i]) is Ok by {
            assert(rest[i] == payloads[i + 1]);
        }
        let next = served(channel, Ok(payloads[0]), true).0;
        lemma_serving_sends_in_order(next, rest);
        assert(paths_of(payloads).drop_first() =~= paths_of(rest));
    }
}

/// Exactly-once delivery in order: when the accept loop has served a run of
/// path messages for existing files, the render loop, polling as many times,
/// receives exactly their paths, each once, in the order in which the
/// connections were accepted, and nothing is left behind.
pub proof fn lemma_delivered_in_order_exactly_once(payloads: Seq<Seq<u8>>)
    requires
        forall|i: int| 0 <= i < payloads.len() ==> payload_path(#[trigger] payloads[i]) is Ok,
    ensures
        served_all(ChannelModel::empty(), payloads).delivered(payloads.len()) == paths_of(
            payloads,
        ),
        served_all(ChannelModel::empty(), payloads).received_times(
            payloads.len(),
        ).pending.len() == 0,
{
    lemma_serving_sends_in_order(ChannelModel::empty(), payloads);
    lemma_fifo_exactly_once(paths_of(payloads));
}

} // verus!
