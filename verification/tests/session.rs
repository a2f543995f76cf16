use ble_central::gatt::{
    CharPropFlags, CharacteristicDescriptor, Property, ServiceTree, UnsupportedOperationError,
};
use ble_central::radio::{Reply, Request, Step};
use ble_central::retry::{Backoff, RetryPolicy};
use ble_central::session::{
    session_state, ConnectOp, ConnectPhase, ConnectionError, DisconnectOp, DiscoverOp,
    DiscoveryError, ReadError, ReadOp, SessionState,
};

fn drive<S, T, E>(
    start: Step<S, T, E>,
    replies: Vec<Reply>,
    advance: fn(S, Reply) -> Step<S, T, E>,
) -> (Vec<Request>, Option<Result<T, E>>) {
    let mut requests = Vec::new();
    let mut replies = replies.into_iter();
    let mut step = start;
    loop {
        match step {
            Step::Finished(outcome) => return (requests, Some(outcome)),
            Step::Continue { state, request } => {
                requests.push(request);
                match replies.next() {
                    Some(reply) => step = advance(state, reply),
                    None => return (requests, None),
                }
            }
        }
    }
}

fn readable() -> CharacteristicDescriptor {
    CharacteristicDescriptor::new(
        "0000180f-0000-1000-8000-00805f9b34fb".to_string(),
        "00002a19-0000-1000-8000-00805f9b34fb".to_string(),
        CharPropFlags::from_bits(0x02),
    )
}

fn read_request() -> Request {
    Request::Read { characteristic: readable() }
}

#[test]
fn connect_that_always_fails_is_attempted_three_times() {
    let replies = vec![
        Reply::Connected(false),
        Reply::Failed,
        Reply::Done,
        Reply::Failed,
        Reply::Done,
        Reply::Failed,
        Reply::Done,
        Reply::Done,
    ];
    let (requests, outcome) =
        drive(ConnectOp::start(RetryPolicy::connect()), replies, ConnectOp::step);
    assert_eq!(
        requests,
        vec![
            Request::IsConnected,
            Request::Connect,
            Request::Sleep { millis: 2000 },
            Request::Connect,
            Request::Sleep { millis: 4000 },
            Request::Connect,
            Request::Sleep { millis: 8000 },
        ]
    );
    assert_eq!(requests.iter().filter(|r| **r == Request::Connect).count(), 3);
    assert_eq!(outcome, Some(Err(ConnectionError::RetriesExhausted)));
}

#[test]
fn connect_is_a_noop_when_already_connected() {
    let (requests, outcome) = drive(
        ConnectOp::start(RetryPolicy::connect()),
        vec![Reply::Connected(true), Reply::Failed],
        ConnectOp::step,
    );
    assert_eq!(requests, vec![Request::IsConnected]);
    assert_eq!(outcome, Some(Ok(())));
}

#[test]
fn connect_succeeds_on_a_later_attempt() {
    let (requests, outcome) = drive(
        ConnectOp::start(RetryPolicy::connect()),
        vec![Reply::Connected(false), Reply::Failed, Reply::Done, Reply::Done],
        ConnectOp::step,
    );
    assert_eq!(
        requests,
        vec![
            Request::IsConnected,
            Request::Connect,
            Request::Sleep { millis: 2000 },
            Request::Connect,
        ]
    );
    assert_eq!(outcome, Some(Ok(())));
}

#[test]
fn connect_reports_an_unanswered_probe() {
    let (requests, outcome) =
        drive(ConnectOp::start(RetryPolicy::connect()), vec![Reply::Failed], ConnectOp::step);
    assert_eq!(requests, vec![Request::IsConnected]);
    assert_eq!(outcome, Some(Err(ConnectionError::Unreachable)));
}

#[test]
fn connect_with_an_empty_budget_never_asks_for_connect() {
    let policy =
        RetryPolicy { max_attempts: 0, backoff: Backoff::Exponential, pause_after_last: true };
    let (requests, outcome) =
        drive(ConnectOp::start(policy), vec![Reply::Connected(false)], ConnectOp::step);
    assert_eq!(requests, vec![Request::IsConnected]);
    assert_eq!(outcome, Some(Err(ConnectionError::RetriesExhausted)));
}

#[test]
fn connect_never_exceeds_its_budget_whatever_the_replies() {
    for budget in 0..6u32 {
        let policy = RetryPolicy {
            max_attempts: budget,
            backoff: Backoff::Fixed { millis: 1 },
            pause_after_last: budget % 2 == 0,
        };
        let mut replies = vec![Reply::Connected(false)];
        for _ in 0..40 {
            replies.push(Reply::TimedOut);
        }
        let (requests, outcome) = drive(ConnectOp::start(policy), replies, ConnectOp::step);
        let connects = requests.iter().filter(|r| **r == Request::Connect).count();
        assert_eq!(connects as u32, budget);
        assert_eq!(outcome, Some(Err(ConnectionError::RetriesExhausted)));
    }
}

#[test]
fn connect_steps_map_to_session_states() {
    let start = ConnectOp::start(RetryPolicy::connect());
    assert_eq!(session_state(&start), SessionState::Connecting);
    assert_eq!(session_state(&Step::Finished(Ok(()))), SessionState::Connected);
    assert_eq!(
        session_state(&Step::Finished(Err(ConnectionError::RetriesExhausted))),
        SessionState::ConnectionFailed
    );
    let op = ConnectOp {
        policy: RetryPolicy::connect(),
        phase: ConnectPhase::BackingOff { attempt: 3 },
    };
    assert_eq!(op.step(Reply::Done), Step::Finished(Err(ConnectionError::RetriesExhausted)));
}

#[test]
fn disconnect_is_always_attempted_and_reports_failure() {
    let (requests, outcome) = drive(DisconnectOp::start(), vec![Reply::Done], DisconnectOp::step);
    assert_eq!(requests, vec![Request::Disconnect]);
    assert_eq!(outcome, Some(Ok(())));
    let (requests, outcome) =
        drive(DisconnectOp::start(), vec![Reply::Failed], DisconnectOp::step);
    assert_eq!(requests, vec![Request::Disconnect]);
    assert_eq!(outcome, Some(Err(ConnectionError::Unreachable)));
}

#[test]
fn discovery_runs_on_a_connected_session_only() {
    let tree = ServiceTree::new(vec![readable()]);
    let (requests, outcome) = drive(
        DiscoverOp::start(),
        vec![Reply::Connected(true), Reply::Services(tree.clone())],
        DiscoverOp::step,
    );
    assert_eq!(requests, vec![Request::IsConnected, Request::DiscoverServices]);
    assert_eq!(outcome, Some(Ok(tree)));

    let (requests, outcome) =
        drive(DiscoverOp::start(), vec![Reply::Connected(false)], DiscoverOp::step);
    assert_eq!(requests, vec![Request::IsConnected]);
    assert_eq!(outcome, Some(Err(DiscoveryError::NotConnected)));

    let (_, outcome) = drive(
        DiscoverOp::start(),
        vec![Reply::Connected(true), Reply::Failed],
        DiscoverOp::step,
    );
    assert_eq!(outcome, Some(Err(DiscoveryError::Failed)));
}

#[test]
fn read_settles_reads_and_paces() {
    let (requests, outcome) = drive(
        ReadOp::start(readable()),
        vec![Reply::Connected(true), Reply::Done, Reply::Value(vec![0x64]), Reply::Done],
        ReadOp::step,
    );
    assert_eq!(
        requests,
        vec![
            Request::IsConnected,
            Request::Sleep { millis: 1000 },
            read_request(),
            Request::Sleep { millis: 500 },
        ]
    );
    assert_eq!(outcome, Some(Ok(vec![0x64])));
}

#[test]
fn read_reconnects_when_the_link_is_down() {
    let (requests, outcome) = drive(
        ReadOp::start(readable()),
        vec![
            Reply::Connected(false),
            Reply::Failed,
            Reply::Done,
            Reply::Done,
            Reply::Done,
            Reply::Value(vec![1, 2]),
            Reply::Done,
        ],
        ReadOp::step,
    );
    assert_eq!(
        requests,
        vec![
            Request::IsConnected,
            Request::Connect,
            Request::Sleep { millis: 2000 },
            Request::Connect,
            Request::Sleep { millis: 1000 },
            read_request(),
            Request::Sleep { millis: 500 },
        ]
    );
    assert_eq!(outcome, Some(Ok(vec![1, 2])));
}

#[test]
fn read_that_always_fails_is_attempted_three_times() {
    let (requests, outcome) = drive(
        ReadOp::start(readable()),
        vec![
            Reply::Connected(true),
            Reply::Done,
            Reply::Failed,
            Reply::Done,
            Reply::Connected(true),
            Reply::Failed,
            Reply::Done,
            Reply::Connected(true),
            Reply::Failed,
        ],
        ReadOp::step,
    );
    assert_eq!(
        requests,
        vec![
            Request::IsConnected,
            Request::Sleep { millis: 1000 },
            read_request(),
            Request::Sleep { millis: 2000 },
            Request::IsConnected,
            read_request(),
            Request::Sleep { millis: 4000 },
            Request::IsConnected,
            read_request(),
        ]
    );
    assert_eq!(
        outcome,
        Some(Err(ReadError::RetriesExhausted {
            characteristic_uuid: "00002a19-0000-1000-8000-00805f9b34fb".to_string()
        }))
    );
}

#[test]
fn read_gives_up_when_the_link_cannot_be_had() {
    let (requests, outcome) = drive(
        ReadOp::start(readable()),
        vec![
            Reply::Connected(false),
            Reply::Failed,
            Reply::Done,
            Reply::Failed,
            Reply::Done,
            Reply::Failed,
            Reply::Done,
        ],
        ReadOp::step,
    );
    assert_eq!(requests.len(), 7);
    assert!(!requests.contains(&read_request()));
    assert_eq!(outcome, Some(Err(ReadError::Connection(ConnectionError::RetriesExhausted))));
}

#[test]
fn read_without_the_read_property_makes_no_request() {
    let write_only = CharacteristicDescriptor::new(
        "s".to_string(),
        "c".to_string(),
        CharPropFlags::from_bits(0x08),
    );
    let (requests, outcome) = drive(ReadOp::start(write_only), Vec::new(), ReadOp::step);
    assert!(requests.is_empty());
    assert_eq!(
        outcome,
        Some(Err(ReadError::Unsupported(UnsupportedOperationError {
            characteristic_uuid: "c".to_string(),
            required: Property::Read,
        })))
    );
}
