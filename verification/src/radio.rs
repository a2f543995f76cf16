//! The vocabulary between the session state machines and the driver that
//! owns the radio: the machine asks for one request, the driver performs it
//! and hands back the reply.

use crate::gatt::{CharacteristicDescriptor, ServiceTree};
use crate::info::{InfoField, InfoOutcome};
use vstd::prelude::*;

verus! {

/// One piece of radio work, or a pause, that a machine asks its driver for.
#[derive(Clone, Debug, PartialEq, Eq)]
pub enum Request {
    /// Ask the peripheral handle whether the link is up.
    IsConnected,
    /// Open the link.
    Connect,
    /// Close the link.
    Disconnect,
    /// Run GATT discovery and list what it found.
    DiscoverServices,
    /// Read the value of a characteristic.
    Read { characteristic: CharacteristicDescriptor },
    /// Turn notifications of a characteristic on.
    Subscribe { characteristic: CharacteristicDescriptor },
    /// Wait for the next notification, until the deadline of the collection
    /// has passed.
    NextNotification,
    /// Let the given time pass.
    Sleep { millis: u64 },
    /// Show the user how the read of an information field ended.
    Report { field: InfoField, outcome: InfoOutcome },
}

/// What the driver reports back for the request it was given.
#[derive(Clone, Debug, PartialEq, Eq)]
pub enum Reply {
    /// The request succeeded and has nothing to return; also the end of a pause.
    Done,
    /// The radio reported an error.
    Failed,
    /// Answer to `IsConnected`.
    Connected(bool),
    /// Answer to `DiscoverServices`.
    Services(ServiceTree),
    /// Answer to `Read`.
    Value(Vec<u8>),
    /// Answer to `NextNotification`.
    Notification { uuid: String, value: Vec<u8> },
    /// The deadline passed, or the stream ended, before a notification
    /// came; also the reply for a request that the driver gave up waiting for.
    TimedOut,
}

/// Result of starting or advancing a machine: either the next request with
/// the state that waits for its reply, or the outcome of the operation.
#[derive(Debug, PartialEq, Eq)]
pub enum Step<S, T, E> {
    Continue { state: S, request: Request },
    Finished(Result<T, E>),
}

/// The run of a machine against a driver that answers with `replies` in
/// turn: the requests that the machine makes, and its outcome if it ends
/// before the replies do. `advance` is the transition table of the machine.
pub open spec fn run<S, T, E>(
    advance: spec_fn(S, Reply) -> Step<S, T, E>,
    step: Step<S, T, E>,
    replies: Seq<Reply>,
) -> (Seq<Request>, Option<Result<T, E>>)
    decreases replies.len(),
{
    match step {
        Step::Finished(outcome) => (Seq::empty(), Some(outcome)),
        Step::Continue { state, request } => if replies.len() == 0 {
            (seq![request], None)
        } else {
            let rest = run(advance, advance(state, replies[0]), replies.drop_first());
            (seq![request] + rest.0, rest.1)
        },
    }
}

} // verus!
