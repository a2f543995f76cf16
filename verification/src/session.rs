//! Session operations on one peripheral: connect, disconnect, discover and
//! read, each as a state machine over radio requests and replies.

use crate::gatt::{
    CharacteristicDescriptor,
    NotFoundError,
    Property,
    ServiceTree,
    UnsupportedOperationError,
};
use crate::radio::{run, Reply, Request, Step};
use crate::retry::{RetryPolicy, Verdict};
use vstd::prelude::*;

verus! {

/// Pause between making sure of the link and the first read.
pub const SETTLE_MILLIS: u64 = 1000;

/// Pause after a successful read, so that reads do not crowd the peripheral.
pub const PACING_MILLIS: u64 = 500;

/// Where the link to a peripheral stands.
#[derive(Clone, Copy, Debug, PartialEq, Eq, Structural)]
pub enum SessionState {
    Disconnected,
    Connecting,
    Connected,
    ConnectionFailed,
}

/// Why no link could be had.
#[derive(Clone, Copy, Debug, PartialEq, Eq, Structural)]
pub enum ConnectionError {
    /// The handle could not even say whether the link is up, or could not close it.
    Unreachable,
    /// Every attempt of the budget failed.
    RetriesExhausted,
}

/// What a connect operation is waiting for.
#[derive(Clone, Copy, Debug, PartialEq, Eq, Structural)]
pub enum ConnectPhase {
    /// For the answer to `IsConnected`.
    Probing,
    /// For the result of connect attempt number `attempt`.
    Attempting { attempt: u32 },
    /// For the end of the pause after the failure of attempt number `attempt`.
    BackingOff { attempt: u32 },
}

/// A connect operation in progress.
#[derive(Clone, Copy, Debug, PartialEq, Eq, Structural)]
pub struct ConnectOp {
    pub policy: RetryPolicy,
    pub phase: ConnectPhase,
}

impl ConnectOp {
    /// The machine with the same budget in another phase.
    pub open spec fn at(self, phase: ConnectPhase) -> ConnectOp {
        ConnectOp { policy: self.policy, phase }
    }

    /// A connect operation begins by asking whether the link is already up.
    pub open spec fn spec_start(policy: RetryPolicy) -> Step<ConnectOp, (), ConnectionError> {
        Step::Continue {
            state: ConnectOp { policy, phase: ConnectPhase::Probing },
            request: Request::IsConnected,
        }
    }

    pub fn start(policy: RetryPolicy) -> (step: Step<ConnectOp, (), ConnectionError>)
        ensures
            step == Self::spec_start(policy),
    {
        Step::Continue {
            state: ConnectOp { policy, phase: ConnectPhase::Probing },
            request: Request::IsConnected,
        }
    }

    /// The transition table of connecting.
    ///
    /// A link that is up ends the operation with success and no connect
    /// request. Otherwise connect is requested; each failure is followed by
    /// the pause of the policy and, while the budget lasts, by the next
    /// attempt. When the budget is spent the operation ends with
    /// `RetriesExhausted`. A probe that is not answered ends it with
    /// `Unreachable`.
    pub open spec fn spec_step(self, reply: Reply) -> Step<ConnectOp, (), ConnectionError> {
        match self.phase {
            ConnectPhase::Probing => match reply {
                Reply::Connected(up) => if up {
                    Step::Finished(Ok(()))
                } else if self.policy.max_attempts == 0 {
                    Step::Finished(Err(ConnectionError::RetriesExhausted))
                } else {
                    Step::Continue {
                        state: self.at(ConnectPhase::Attempting { attempt: 1 }),
                        request: Request::Connect,
                    }
                },
                _ => Step::Finished(Err(ConnectionError::Unreachable)),
            },
            ConnectPhase::Attempting { attempt } => match reply {
                Reply::Done => Step::Finished(Ok(())),
                _ => match self.policy.spec_after_failure(attempt) {
                    Verdict::RetryAfter { millis } => Step::Continue {
                        state: self.at(ConnectPhase::BackingOff { attempt }),
                        request: Request::Sleep { millis },
                    },
                    Verdict::GiveUpAfter { millis } => Step::Continue {
                        state: self.at(ConnectPhase::BackingOff { attempt }),
                        request: Request::Sleep { millis },
                    },
                    Verdict::GiveUp => Step::Finished(Err(ConnectionError::RetriesExhausted)),
                },
            },
            ConnectPhase::BackingOff { attempt } => if attempt < self.policy.max_attempts {
                Step::Continue {
                    state: self.at(ConnectPhase::Attempting { attempt: (attempt + 1) as u32 }),
                    request: Request::Connect,
                }
            } else {
                Step::Finished(Err(ConnectionError::RetriesExhausted))
            },
        }
    }

    /// Advances the operation by the reply to its pending request.
    pub fn step(self, reply: Reply) -> (next: Step<ConnectOp, (), ConnectionError>)
        ensures
            next == self.spec_step(reply),
    {
        let policy = self.policy;
        match self.phase {
            ConnectPhase::Probing => match reply {
                Reply::Connected(up) => {
                    if up {
                        Step::Finished(Ok(()))
                    } else if policy.max_attempts == 0 {
                        Step::Finished(Err(ConnectionError::RetriesExhausted))
                    } else {
                        Step::Continue {
                            state: ConnectOp {
                                policy,
                                phase: ConnectPhase::Attempting { attempt: 1 },
                            },
                            request: Request::Connect,
                        }
                    }
                },
                _ => Step::Finished(Err(ConnectionError::Unreachable)),
            },
            ConnectPhase::Attempting { attempt } => match reply {
                Reply::Done => Step::Finished(Ok(())),
                _ => match policy.after_failure(attempt) {
                    Verdict::RetryAfter { millis } => Step::Continue {
                        state: ConnectOp { policy, phase: ConnectPhase::BackingOff { attempt } },
                        request: Request::Sleep { millis },
                    },
                    Verdict::GiveUpAfter { millis } => Step::Continue {
                        state: ConnectOp { policy, phase: ConnectPhase::BackingOff { attempt } },
                        request: Request::Sleep { millis },
                    },
                    Verdict::GiveUp => Step::Finished(Err(ConnectionError::RetriesExhausted)),
                },
            },
            ConnectPhase::BackingOff { attempt } => {
                if attempt < policy.max_attempts {
                    Step::Continue {
                        state: ConnectOp {
                            policy,
                            phase: ConnectPhase::Attempting { attempt: attempt + 1 },
                        },
                        request: Request::Connect,
                    }
                } else {
                    Step::Finished(Err(ConnectionError::RetriesExhausted))
                }
            },
        }
    }

    /// The requests that the operation makes, and its outcome if it ends,
    /// when the driver answers with `replies` in turn.
    pub open spec fn run(step: Step<ConnectOp, (), ConnectionError>, replies: Seq<Reply>) -> (
        Seq<Request>,
        Option<Result<(), ConnectionError>>,
    ) {
        run(|op: ConnectOp, reply: Reply| op.spec_step(reply), step, replies)
    }
}

/// Retry cap. When the link is down and every connect attempt fails, the
/// operation asks for connect exactly three times, pauses two, four and
/// eight seconds after the first, second and third failure, and ends with
/// `RetriesExhausted`, whatever the driver reports at the end of a pause.
pub proof fn lemma_connect_retry_cap(replies: Seq<Reply>)
    requires
        replies.len() == 7,
        replies[0] == Reply::Connected(false),
        !(replies[1] is Done),
        !(replies[3] is Done),
        !(replies[5] is Done),
    ensures
        ConnectOp::run(ConnectOp::spec_start(RetryPolicy::connect()), replies) == (
            seq![
                Request::IsConnected,
                Request::Connect,
                Request::Sleep { millis: 2000 },
                Request::Connect,
                Request::Sleep { millis: 4000 },
                Request::Connect,
                Request::Sleep { millis: 8000 },
            ],
            Some(Err::<(), ConnectionError>(ConnectionError::RetriesExhausted)),
        ),
{
    crate::retry::lemma_exponential_delays();
    reveal_with_fuel(run, 9);
    let r1 = replies.drop_first();
    let r2 = r1.drop_first();
    let r3 = r2.drop_first();
    let r4 = r3.drop_first();
    let r5 = r4.drop_first();
    let r6 = r5.drop_first();
    let r7 = r6.drop_first();
    assert(r1[0] == replies[1]);
    assert(r2[0] == replies[2]);
    assert(r3[0] == replies[3]);
    assert(r4[0] == replies[4]);
    assert(r5[0] == replies[5]);
    assert(r6[0] == replies[6]);
    assert(r7.len() == 0);
    let got = ConnectOp::run(ConnectOp::spec_start(RetryPolicy::connect()), replies);
    assert(got.0 =~= seq![
        Request::IsConnected,
        Request::Connect,
        Request::Sleep { millis: 2000 },
        Request::Connect,
        Request::Sleep { millis: 4000 },
        Request::Connect,
        Request::Sleep { millis: 8000 },
    ]);
}

/// The number of connect requests among `requests`.
pub open spec fn count_connects(requests: Seq<Request>) -> nat
    decreases requests.len(),
{
    if requests.len() == 0 {
        0
    } else {
        count_connects(requests.drop_last()) + if requests.last() is Connect {
            1nat
        } else {
            0nat
        }
    }
}

/// The number of connect requests that a connect operation may still make
/// once its pending request is answered.
pub open spec fn attempts_left(op: ConnectOp) -> nat {
    match op.phase {
        ConnectPhase::Probing => op.policy.max_attempts as nat,
        ConnectPhase::Attempting { attempt } => if attempt < op.policy.max_attempts {
            (op.policy.max_attempts - attempt) as nat
        } else {
            0
        },
        ConnectPhase::BackingOff { attempt } => if attempt < op.policy.max_attempts {
            (op.policy.max_attempts - attempt) as nat
        } else {
            0
        },
    }
}

/// Counting connect requests goes along with putting a request in front.
proof fn lemma_count_connects_cons(request: Request, rest: Seq<Request>)
    ensures
        count_connects(seq![request] + rest) == count_connects(seq![request]) + count_connects(
            rest,
        ),
    decreases rest.len(),
{
    reveal_with_fuel(count_connects, 2);
    if rest.len() == 0 {
        assert(seq![request] + rest =~= seq![request]);
    } else {
        lemma_count_connects_cons(request, rest.drop_last());
        assert((seq![request] + rest).drop_last() =~= seq![request] + rest.drop_last());
        assert((seq![request] + rest).last() == rest.last());
    }
}

/// From any state on, a connect operation makes no more connect requests
/// than the one that may be pending and those that its budget still allows.
pub proof fn lemma_connects_from(state: ConnectOp, request: Request, replies: Seq<Reply>)
    ensures
        count_connects(ConnectOp::run(Step::Continue { state, request }, replies).0)
            <= count_connects(seq![request]) + attempts_left(state),
    decreases replies.len(),
{
    reveal_with_fuel(run, 2);
    reveal_with_fuel(count_connects, 2);
    let step = Step::<ConnectOp, (), ConnectionError>::Continue { state, request };
    if replies.len() > 0 {
        let next = state.spec_step(replies[0]);
        let rest = ConnectOp::run(next, replies.drop_first());
        assert(ConnectOp::run(step, replies).0 == seq![request] + rest.0);
        lemma_count_connects_cons(request, rest.0);
        match next {
            Step::Continue { state: after, request: asked } => {
                lemma_connects_from(after, asked, replies.drop_first());
                assert(count_connects(seq![asked]) + attempts_left(after) <= attempts_left(state));
            },
            Step::Finished(_) => {
                assert(rest.0 =~= Seq::<Request>::empty());
            },
        }
    }
}

/// Retry cap, for every budget and every driver: whatever the radio
/// answers, a connect operation asks for connect at most `max_attempts`
/// times.
pub proof fn lemma_connect_attempts_are_capped(policy: RetryPolicy, replies: Seq<Reply>)
    ensures
        count_connects(ConnectOp::run(ConnectOp::spec_start(policy), replies).0)
            <= policy.max_attempts,
{
    reveal_with_fuel(count_connects, 2);
    lemma_connects_from(
        ConnectOp { policy, phase: ConnectPhase::Probing },
        Request::IsConnected,
        replies,
    );
}

/// The number of replies after which a connect operation has ended at the
/// latest.
pub open spec fn replies_left(op: ConnectOp) -> nat {
    let max = op.policy.max_attempts as nat;
    match op.phase {
        ConnectPhase::Probing => 2 * max + 1,
        ConnectPhase::Attempting { attempt } => if attempt < max {
            (2 * (max - attempt) + 2) as nat
        } else {
            2
        },
        ConnectPhase::BackingOff { attempt } => if attempt < max {
            (2 * (max - attempt) + 1) as nat
        } else {
            1
        },
    }
}

/// From any state on, a connect operation has ended once it has been given
/// `replies_left` replies.
pub proof fn lemma_connect_ends_from(state: ConnectOp, request: Request, replies: Seq<Reply>)
    requires
        replies.len() >= replies_left(state),
    ensures
        ConnectOp::run(Step::Continue { state, request }, replies).1 is Some,
    decreases replies.len(),
{
    reveal_with_fuel(run, 2);
    match state.spec_step(replies[0]) {
        Step::Continue { state: after, request: asked } => {
            assert(replies_left(after) < replies_left(state));
            lemma_connect_ends_from(after, asked, replies.drop_first());
        },
        Step::Finished(_) => {},
    }
}

/// Connecting always comes to an end: with a budget of `max_attempts`, the
/// outcome is there after `2 * max_attempts + 1` replies at the latest,
/// whatever the radio answers.
pub proof fn lemma_connect_terminates(policy: RetryPolicy, replies: Seq<Reply>)
    requires
        replies.len() >= 2 * policy.max_attempts + 1,
    ensures
        ConnectOp::run(ConnectOp::spec_start(policy), replies).1 is Some,
{
    lemma_connect_ends_from(
        ConnectOp { policy, phase: ConnectPhase::Probing },
        Request::IsConnected,
        replies,
    );
}

/// A link that is already up is left alone: the operation succeeds without
/// a connect request.
pub proof fn lemma_connect_is_noop_when_connected(policy: RetryPolicy, replies: Seq<Reply>)
    requires
        replies.len() > 0,
        replies[0] == Reply::Connected(true),
    ensures
        ConnectOp::run(ConnectOp::spec_start(policy), replies) == (
            seq![Request::IsConnected],
            Some(Ok::<(), ConnectionError>(())),
        ),
{
    reveal_with_fuel(run, 3);
    let got = ConnectOp::run(ConnectOp::spec_start(policy), replies);
    assert(got.0 =~= seq![Request::IsConnected]);
}

/// Where the link stands after a step of a connect operation.
pub open spec fn spec_session_state(step: Step<ConnectOp, (), ConnectionError>) -> SessionState {
    match step {
        Step::Continue { .. } => SessionState::Connecting,
        Step::Finished(Ok(_)) => SessionState::Connected,
        Step::Finished(Err(_)) => SessionState::ConnectionFailed,
    }
}

pub fn session_state(step: &Step<ConnectOp, (), ConnectionError>) -> (state: SessionState)
    ensures
        state == spec_session_state(*step),
{
    match step {
        Step::Continue { .. } => SessionState::Connecting,
        Step::Finished(Ok(_)) => SessionState::Connected,
        Step::Finished(Err(_)) => SessionState::ConnectionFailed,
    }
}

/// A disconnect operation: the one request is always made.
#[derive(Clone, Copy, Debug, PartialEq, Eq, Structural)]
pub struct DisconnectOp {}

impl DisconnectOp {
    pub open spec fn spec_start() -> Step<DisconnectOp, (), ConnectionError> {
        Step::Continue { state: DisconnectOp {  }, request: Request::Disconnect }
    }

    pub fn start() -> (step: Step<DisconnectOp, (), ConnectionError>)
        ensures
            step == Self::spec_start(),
    {
        Step::Continue { state: DisconnectOp {  }, request: Request::Disconnect }
    }

    /// The link is closed when the radio says so; anything else is reported
    /// as `Unreachable`.
    pub open spec fn spec_step(self, reply: Reply) -> Step<DisconnectOp, (), ConnectionError> {
        match reply {
            Reply::Done => Step::Finished(Ok(())),
            _ => Step::Finished(Err(ConnectionError::Unreachable)),
        }
    }

    pub fn step(self, reply: Reply) -> (next: Step<DisconnectOp, (), ConnectionError>)
        ensures
            next == self.spec_step(reply),
    {
        match reply {
            Reply::Done => Step::Finished(Ok(())),
            _ => Step::Finished(Err(ConnectionError::Unreachable)),
        }
    }
}

/// Why the characteristics of a peripheral could not be listed.
#[derive(Clone, Copy, Debug, PartialEq, Eq, Structural)]
pub enum DiscoveryError {
    /// Discovery runs on a connected session only.
    NotConnected,
    /// The radio failed to enumerate services and characteristics.
    Failed,
}

/// What a discovery is waiting for.
#[derive(Clone, Copy, Debug, PartialEq, Eq, Structural)]
pub enum DiscoverPhase {
    Probing,
    Discovering,
}

/// A discovery in progress.
#[derive(Clone, Copy, Debug, PartialEq, Eq, Structural)]
pub struct DiscoverOp {
    pub phase: DiscoverPhase,
}

impl DiscoverOp {
    pub open spec fn spec_start() -> Step<DiscoverOp, ServiceTree, DiscoveryError> {
        Step::Continue {
            state: DiscoverOp { phase: DiscoverPhase::Probing },
            request: Request::IsConnected,
        }
    }

    pub fn start() -> (step: Step<DiscoverOp, ServiceTree, DiscoveryError>)
        ensures
            step == Self::spec_start(),
    {
        Step::Continue {
            state: DiscoverOp { phase: DiscoverPhase::Probing },
            request: Request::IsConnected,
        }
    }

    /// Discovery is requested only on a link that is up, and hands out the
    /// tree exactly as the radio listed it.
    pub open spec fn spec_step(self, reply: Reply) -> Step<DiscoverOp, ServiceTree, DiscoveryError> {
        match self.phase {
            DiscoverPhase::Probing => match reply {
                Reply::Connected(up) => if up {
                    Step::Continue {
                        state: DiscoverOp { phase: DiscoverPhase::Discovering },
                        request: Request::DiscoverServices,
                    }
                } else {
                    Step::Finished(Err(DiscoveryError::NotConnected))
                },
                _ => Step::Finished(Err(DiscoveryError::NotConnected)),
            },
            DiscoverPhase::Discovering => match reply {
                Reply::Services(tree) => Step::Finished(Ok(tree)),
                _ => Step::Finished(Err(DiscoveryError::Failed)),
            },
        }
    }

    pub fn step(self, reply: Reply) -> (next: Step<DiscoverOp, ServiceTree, DiscoveryError>)
        ensures
            next == self.spec_step(reply),
    {
        match self.phase {
            DiscoverPhase::Probing => match reply {
                Reply::Connected(up) => {
                    if up {
                        Step::Continue {
                            state: DiscoverOp { phase: DiscoverPhase::Discovering },
                            request: Request::DiscoverServices,
                        }
                    } else {
                        Step::Finished(Err(DiscoveryError::NotConnected))
                    }
                },
                _ => Step::Finished(Err(DiscoveryError::NotConnected)),
            },
            DiscoverPhase::Discovering => match reply {
                Reply::Services(tree) => Step::Finished(Ok(tree)),
                _ => Step::Finished(Err(DiscoveryError::Failed)),
            },
        }
    }
}

/// Why a characteristic could not be read.
#[derive(Clone, Debug, PartialEq, Eq)]
pub enum ReadError {
    /// The tree holds no characteristic of that UUID pair.
    NotFound(NotFoundError),
    /// The characteristic does not have the READ property.
    Unsupported(UnsupportedOperationError),
    /// The link was down and could not be brought up.
    Connection(ConnectionError),
    /// Every read attempt of the budget failed.
    RetriesExhausted { characteristic_uuid: String },
}

/// What a read operation is waiting for.
#[derive(Clone, Debug, PartialEq, Eq)]
pub enum ReadPhase {
    /// For the link to be made sure of, before read attempt number `attempt`.
    Connecting { attempt: u32, link: ConnectOp },
    /// For the end of the settle pause before the first attempt.
    Settling,
    /// For the result of read attempt number `attempt`.
    Reading { attempt: u32 },
    /// For the end of the pause after the failure of attempt number `attempt`.
    BackingOff { attempt: u32 },
    /// For the end of the pause after the read that gave `value`.
    Pacing { value: Vec<u8> },
}

/// A read of one characteristic in progress.
#[derive(Clone, Debug, PartialEq, Eq)]
pub struct ReadOp {
    pub characteristic: CharacteristicDescriptor,
    pub policy: RetryPolicy,
    pub phase: ReadPhase,
}

impl ReadOp {
    /// The machine for the same read in another phase.
    pub open spec fn at(self, phase: ReadPhase) -> ReadOp {
        ReadOp { characteristic: self.characteristic, policy: self.policy, phase }
    }

    /// The error of a read whose budget is spent.
    pub open spec fn exhausted(self) -> Step<ReadOp, Vec<u8>, ReadError> {
        Step::Finished(
            Err(ReadError::RetriesExhausted { characteristic_uuid: self.characteristic.uuid }),
        )
    }

    /// Carries a step of making sure of the link over into the read: the
    /// link's requests are passed on, its failure ends the read, and once the
    /// link is up the read goes on with the settle pause before the first
    /// attempt and with the read request before a later one.
    pub open spec fn with_link(
        self,
        attempt: u32,
        link: Step<ConnectOp, (), ConnectionError>,
    ) -> Step<ReadOp, Vec<u8>, ReadError> {
        match link {
            Step::Continue { state, request } => Step::Continue {
                state: self.at(ReadPhase::Connecting { attempt, link: state }),
                request,
            },
            Step::Finished(Ok(_)) => if attempt <= 1 {
                Step::Continue {
                    state: self.at(ReadPhase::Settling),
                    request: Request::Sleep { millis: SETTLE_MILLIS },
                }
            } else {
                Step::Continue {
                    state: self.at(ReadPhase::Reading { attempt }),
                    request: Request::Read { characteristic: self.characteristic },
                }
            },
            Step::Finished(Err(e)) => Step::Finished(Err(ReadError::Connection(e))),
        }
    }

    /// A read is refused at once, before any radio request, when the
    /// characteristic lacks the READ property. Otherwise it begins by making
    /// sure of the link.
    pub open spec fn spec_start(characteristic: CharacteristicDescriptor) -> Step<
        ReadOp,
        Vec<u8>,
        ReadError,
    > {
        if characteristic.properties.spec_contains(Property::Read) {
            let op = ReadOp {
                characteristic,
                policy: RetryPolicy::read(),
                phase: ReadPhase::Settling,
            };
            op.with_link(1, ConnectOp::spec_start(RetryPolicy::connect()))
        } else {
            Step::Finished(
                Err(
                    ReadError::Unsupported(
                        UnsupportedOperationError {
                            characteristic_uuid: characteristic.uuid,
                            required: Property::Read,
                        },
                    ),
                ),
            )
        }
    }

    pub fn start(characteristic: CharacteristicDescriptor) -> (step: Step<
        ReadOp,
        Vec<u8>,
        ReadError,
    >)
        ensures
            step == Self::spec_start(characteristic),
    {
        match characteristic.require(Property::Read) {
            Ok(_) => {
                let op = ReadOp {
                    characteristic,
                    policy: RetryPolicy::read(),
                    phase: ReadPhase::Settling,
                };
                op.link_step(1, ConnectOp::start(RetryPolicy::connect()))
            },
            Err(e) => Step::Finished(Err(ReadError::Unsupported(e))),
        }
    }

    fn link_step(self, attempt: u32, link: Step<ConnectOp, (), ConnectionError>) -> (next: Step<
        ReadOp,
        Vec<u8>,
        ReadError,
    >)
        ensures
            next == self.with_link(attempt, link),
    {
        let ReadOp { characteristic, policy, phase: _ } = self;
        match link {
            Step::Continue { state, request } => Step::Continue {
                state: ReadOp {
                    characteristic,
                    policy,
                    phase: ReadPhase::Connecting { attempt, link: state },
                },
                request,
            },
            Step::Finished(Ok(_)) => {
                if attempt <= 1 {
                    Step::Continue {
                        state: ReadOp { characteristic, policy, phase: ReadPhase::Settling },
                        request: Request::Sleep { millis: SETTLE_MILLIS },
                    }
                } else {
                    let wanted = characteristic.duplicate();
                    Step::Continue {
                        state: ReadOp {
                            characteristic,
                            policy,
                            phase: ReadPhase::Reading { attempt },
                        },
                        request: Request::Read { characteristic: wanted },
                    }
                }
            },
            Step::Finished(Err(e)) => Step::Finished(Err(ReadError::Connection(e))),
        }
    }

    /// The transition table of reading.
    ///
    /// After the link is made sure of and the settle pause has passed, the
    /// read is requested. A value ends the operation with that value, after
    /// the pacing pause. A failure is followed by the pause of the policy and
    /// the next attempt, which makes sure of the link again; when the budget
    /// is spent the operation ends with `RetriesExhausted`.
    pub open spec fn spec_step(self, reply: Reply) -> Step<ReadOp, Vec<u8>, ReadError> {
        match self.phase {
            ReadPhase::Connecting { attempt, link } => self.with_link(
                attempt,
                link.spec_step(reply),
            ),
            ReadPhase::Settling => Step::Continue {
                state: self.at(ReadPhase::Reading { attempt: 1 }),
                request: Request::Read { characteristic: self.characteristic },
            },
            ReadPhase::Reading { attempt } => match reply {
                Reply::Value(value) => Step::Continue {
                    state: self.at(ReadPhase::Pacing { value }),
                    request: Request::Sleep { millis: PACING_MILLIS },
                },
                _ => match self.policy.spec_after_failure(attempt) {
                    Verdict::RetryAfter { millis } => Step::Continue {
                        state: self.at(ReadPhase::BackingOff { attempt }),
                        request: Request::Sleep { millis },
                    },
                    Verdict::GiveUpAfter { millis } => Step::Continue {
                        state: self.at(ReadPhase::BackingOff { attempt }),
                        request: Request::Sleep { millis },
                    },
                    Verdict::GiveUp => self.exhausted(),
                },
            },
            ReadPhase::BackingOff { attempt } => if attempt < self.policy.max_attempts {
                self.with_link((attempt + 1) as u32, ConnectOp::spec_start(RetryPolicy::connect()))
            } else {
                self.exhausted()
            },
            ReadPhase::Pacing { value } => Step::Finished(Ok(value)),
        }
    }

    /// Advances the operation by the reply to its pending request.
    pub fn step(self, reply: Reply) -> (next: Step<ReadOp, Vec<u8>, ReadError>)
        ensures
            next == self.spec_step(reply),
    {
        let ReadOp { characteristic, policy, phase } = self;
        match phase {
            ReadPhase::Connecting { attempt, link } => {
                let op = ReadOp { characteristic, policy, phase: ReadPhase::Settling };
                op.link_step(attempt, link.step(reply))
            },
            ReadPhase::Settling => {
                let wanted = characteristic.duplicate();
                Step::Continue {
                    state: ReadOp { characteristic, policy, phase: ReadPhase::Reading { attempt: 1 } },
                    request: Request::Read { characteristic: wanted },
                }
            },
            ReadPhase::Reading { attempt } => match reply {
                Reply::Value(value) => Step::Continue {
                    state: ReadOp { characteristic, policy, phase: ReadPhase::Pacing { value } },
                    request: Request::Sleep { millis: PACING_MILLIS },
                },
                _ => match policy.after_failure(attempt) {
                    Verdict::RetryAfter { millis } => Step::Continue {
                        state: ReadOp {
                            characteristic,
                            policy,
                            phase: ReadPhase::BackingOff { attempt },
                        },
                        request: Request::Sleep { millis },
                    },
                    Verdict::GiveUpAfter { millis } => Step::Continue {
                        state: ReadOp {
                            characteristic,
                            policy,
                            phase: ReadPhase::BackingOff { attempt },
                        },
                        request: Request::Sleep { millis },
                    },
                    Verdict::GiveUp => Step::Finished(
                        Err(ReadError::RetriesExhausted { characteristic_uuid: characteristic.uuid }),
                    ),
                },
            },
            ReadPhase::BackingOff { attempt } => {
                if attempt < policy.max_attempts {
                    let op = ReadOp { characteristic, policy, phase: ReadPhase::Settling };
                    op.link_step(attempt + 1, ConnectOp::start(RetryPolicy::connect()))
                } else {
                    Step::Finished(
                        Err(ReadError::RetriesExhausted { characteristic_uuid: characteristic.uuid }),
                    )
                }
            },
            ReadPhase::Pacing { value } => Step::Finished(Ok(value)),
        }
    }
}

impl ReadOp {
    /// The requests that the read makes, and its outcome if it ends, when
    /// the driver answers with `replies` in turn.
    pub open spec fn run(step: Step<ReadOp, Vec<u8>, ReadError>, replies: Seq<Reply>) -> (
        Seq<Request>,
        Option<Result<Vec<u8>, ReadError>>,
    ) {
        run(|op: ReadOp, reply: Reply| op.spec_step(reply), step, replies)
    }
}

/// A read over a link that is up, whose first attempt succeeds, asks for
/// the link, rests a second, reads, rests half a second, and hands out the
/// value exactly as the radio gave it.
pub proof fn lemma_read_returns_value(
    characteristic: CharacteristicDescriptor,
    replies: Seq<Reply>,
    value: Vec<u8>,
)
    requires
        characteristic.properties.spec_contains(Property::Read),
        replies.len() >= 4,
        replies[0] == Reply::Connected(true),
        replies[2] == Reply::Value(value),
    ensures
        ReadOp::run(ReadOp::spec_start(characteristic), replies) == (
            seq![
                Request::IsConnected,
                Request::Sleep { millis: 1000 },
                Request::Read { characteristic },
                Request::Sleep { millis: 500 },
            ],
            Some(Ok::<Vec<u8>, ReadError>(value)),
        ),
{
    reveal_with_fuel(run, 6);
    let r1 = replies.drop_first();
    let r2 = r1.drop_first();
    let r3 = r2.drop_first();
    assert(r1[0] == replies[1]);
    assert(r2[0] == replies[2]);
    assert(r3[0] == replies[3]);
    let got = ReadOp::run(ReadOp::spec_start(characteristic), replies);
    assert(got.0 =~= seq![
        Request::IsConnected,
        Request::Sleep { millis: 1000 },
        Request::Read { characteristic },
        Request::Sleep { millis: 500 },
    ]);
}

/// A read over a link that stays up, whose every attempt fails, reads
/// exactly three times, pauses two and four seconds after the first and the
/// second failure, asks for the link again before each new attempt, and
/// ends with `RetriesExhausted` for its characteristic.
pub proof fn lemma_read_retry_cap(characteristic: CharacteristicDescriptor, replies: Seq<Reply>)
    requires
        characteristic.properties.spec_contains(Property::Read),
        replies.len() == 9,
        replies[0] == Reply::Connected(true),
        !(replies[2] is Value),
        replies[4] == Reply::Connected(true),
        !(replies[5] is Value),
        replies[7] == Reply::Connected(true),
        !(replies[8] is Value),
    ensures
        ReadOp::run(ReadOp::spec_start(characteristic), replies) == (
            seq![
                Request::IsConnected,
                Request::Sleep { millis: 1000 },
                Request::Read { characteristic },
                Request::Sleep { millis: 2000 },
                Request::IsConnected,
                Request::Read { characteristic },
                Request::Sleep { millis: 4000 },
                Request::IsConnected,
                Request::Read { characteristic },
            ],
            Some(
                Err::<Vec<u8>, ReadError>(
                    ReadError::RetriesExhausted { characteristic_uuid: characteristic.uuid },
                ),
            ),
        ),
{
    crate::retry::lemma_exponential_delays();
    reveal_with_fuel(run, 11);
    let r1 = replies.drop_first();
    let r2 = r1.drop_first();
    let r3 = r2.drop_first();
    let r4 = r3.drop_first();
    let r5 = r4.drop_first();
    let r6 = r5.drop_first();
    let r7 = r6.drop_first();
    let r8 = r7.drop_first();
    assert(r1[0] == replies[1]);
    assert(r2[0] == replies[2]);
    assert(r3[0] == replies[3]);
    assert(r4[0] == replies[4]);
    assert(r5[0] == replies[5]);
    assert(r6[0] == replies[6]);
    assert(r7[0] == replies[7]);
    assert(r8[0] == replies[8]);
    assert(r8.drop_first().len() == 0);
    let got = ReadOp::run(ReadOp::spec_start(characteristic), replies);
    assert(got.0 =~= seq![
        Request::IsConnected,
        Request::Sleep { millis: 1000 },
        Request::Read { characteristic },
        Request::Sleep { millis: 2000 },
        Request::IsConnected,
        Request::Read { characteristic },
        Request::Sleep { millis: 4000 },
        Request::IsConnected,
        Request::Read { characteristic },
    ]);
}

} // verus!
