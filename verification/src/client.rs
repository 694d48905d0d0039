//! The client side of the rendezvous, and the choice of role at start-up.
//! Connecting, writing and reading are done by the caller, who reports what
//! happened; what that means is decided here.

use crate::protocol::{reply_acknowledgment, Acknowledgment};
use crate::views::text_view;
use vstd::prelude::*;

verus! {

/// Why a connection to the endpoint could not be made. The kind is for the
/// log: whatever it is, a connection that could not be made means that no
/// server answers.
#[derive(Clone, Copy, Debug, PartialEq, Eq, Structural)]
pub enum ConnectError {
    /// The endpoint exists but nobody listens on it.
    Refused,
    /// The endpoint does not exist.
    NotFound,
    /// Anything else, such as an endpoint that this user may not open.
    Other,
}

/// What happened on the wire when a path was offered to a running instance.
#[derive(Debug, PartialEq, Eq)]
pub enum Attempt {
    /// No connection was made.
    ConnectFailed(ConnectError),
    /// The connection was made, but the payload could not be written in full.
    SendFailed,
    /// The payload was written, but no answer arrived in time.
    NoReply,
    /// The payload was written and these bytes came back.
    Replied(Vec<u8>),
}

/// Mathematical model of an attempt.
pub enum AttemptModel {
    ConnectFailed(ConnectError),
    SendFailed,
    NoReply,
    Replied(Seq<u8>),
}

impl View for Attempt {
    type V = AttemptModel;

    open spec fn view(&self) -> AttemptModel {
        match self {
            Attempt::ConnectFailed(e) => AttemptModel::ConnectFailed(*e),
            Attempt::SendFailed => AttemptModel::SendFailed,
            Attempt::NoReply => AttemptModel::NoReply,
            Attempt::Replied(bytes) => AttemptModel::Replied(bytes@),
        }
    }
}

/// The result of offering a path to a running instance.
#[derive(Clone, Copy, Debug, PartialEq, Eq, Structural)]
pub enum DeliveryResult {
    /// The running instance answered.
    Delivered(Acknowledgment),
    /// Nobody serves the endpoint: this process is the first.
    NoServer,
    /// The connection was made, but the exchange on it failed.
    IoFailure,
}

/// What the process does after its attempt to deliver.
#[derive(Clone, Copy, Debug, PartialEq, Eq, Structural)]
pub enum Role {
    /// Bind the endpoint and open the window.
    Serve,
    /// Leave: the path is in other hands, or cannot be delivered.
    Exit,
}

/// What the process does with its command line.
#[derive(Debug, PartialEq, Eq)]
pub enum Launch {
    /// No path was given: print the usage and leave.
    Usage,
    /// The path names nothing that exists: say so and leave, without
    /// touching the endpoint.
    Missing(String),
    /// Offer the path to a running instance.
    Deliver(String),
}

/// Mathematical model of a launch decision.
pub enum LaunchModel {
    Usage,
    Missing(Seq<char>),
    Deliver(Seq<char>),
}

impl View for Launch {
    type V = LaunchModel;

    open spec fn view(&self) -> LaunchModel {
        match self {
            Launch::Usage => LaunchModel::Usage,
            Launch::Missing(path) => LaunchModel::Missing(path@),
            Launch::Deliver(path) => LaunchModel::Deliver(path@),
        }
    }
}

/// The result that an attempt amounts to. A connection that could not be
/// made, for whatever reason, means that there is no server. On a connection
/// that was made, an answer counts only if it spells an acknowledgment;
/// everything else is an I/O failure.
pub open spec fn delivery_of(attempt: AttemptModel) -> DeliveryResult {
    match attempt {
        AttemptModel::ConnectFailed(_) => DeliveryResult::NoServer,
        AttemptModel::SendFailed => DeliveryResult::IoFailure,
        AttemptModel::NoReply => DeliveryResult::IoFailure,
        AttemptModel::Replied(bytes) => match reply_acknowledgment(bytes) {
            Some(ack) => DeliveryResult::Delivered(ack),
            None => DeliveryResult::IoFailure,
        },
    }
}

/// The role that follows a delivery result: serve exactly when there is no
/// server.
pub open spec fn role_of(result: DeliveryResult) -> Role {
    match result {
        DeliveryResult::NoServer => Role::Serve,
        _ => Role::Exit,
    }
}

/// The launch decision for a command line. `path` is the first argument, if
/// there is one; `exists` says whether it names something that exists.
pub open spec fn launch_of(path: Option<Seq<char>>, exists: bool) -> LaunchModel {
    match path {
        None => LaunchModel::Usage,
        Some(p) => if exists {
            LaunchModel::Deliver(p)
        } else {
            LaunchModel::Missing(p)
        },
    }
}

/// Decides what to do with the command line.
pub fn launch(path: Option<String>, exists: bool) -> (decision: Launch)
    ensures
        decision@ == launch_of(text_view(path), exists),
{
    match path {
        None => Launch::Usage,
        Some(p) => if exists {
            Launch::Deliver(p)
        } else {
            Launch::Missing(p)
        },
    }
}

/// Sums up an attempt to deliver.
pub fn delivery_result(attempt: &Attempt) -> (result: DeliveryResult)
    ensures
        result == delivery_of(attempt@),
{
    match attempt {
        Attempt::ConnectFailed(_) => DeliveryResult::NoServer,
        Attempt::SendFailed => DeliveryResult::IoFailure,
        Attempt::NoReply => DeliveryResult::IoFailure,
        Attempt::Replied(bytes) => match Acknowledgment::parse(bytes.as_slice()) {
            Some(ack) => DeliveryResult::Delivered(ack),
            None => DeliveryResult::IoFailure,
        },
    }
}

/// Chooses the role of this process from the result of its delivery.
pub fn next_role(result: DeliveryResult) -> (role: Role)
    ensures
        role == role_of(result),
{
    match result {
        DeliveryResult::NoServer => Role::Serve,
        _ => Role::Exit,
    }
}

/// When no connection can be made, whether the endpoint is stale, absent or
/// out of reach, the result is always `NoServer` and the process becomes the
/// server.
pub proof fn lemma_no_listener_means_no_server(error: ConnectError)
    ensures
        delivery_of(AttemptModel::ConnectFailed(error)) == DeliveryResult::NoServer,
        role_of(delivery_of(AttemptModel::ConnectFailed(error))) == Role::Serve,
{
}

/// A process whose connection was accepted never becomes a server, whatever
/// happens on that connection afterwards: it never binds the endpoint.
pub proof fn lemma_connected_client_never_serves(attempt: AttemptModel)
    requires
        !(attempt is ConnectFailed),
    ensures
        delivery_of(attempt) != DeliveryResult::NoServer,
        role_of(delivery_of(attempt)) == Role::Exit,
{
}

/// A process serves only if its connection could not be made.
pub proof fn lemma_serves_only_without_listener(attempt: AttemptModel)
    requires
        role_of(delivery_of(attempt)) == Role::Serve,
    ensures
        attempt is ConnectFailed,
{
}

} // verus!
