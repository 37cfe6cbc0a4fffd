use bytes::Bytes;
use http::HeaderMap;
use izanami::buf::Data;
use izanami::connection::{
    AcceptPoll, ClosePoll, Engine, Foreground, ForegroundEvent, H2Connection, HandshakePoll,
    ReadyPoll, State, Want, H2,
};
use izanami::error::{H2ErrorKind, ProtocolError};
use izanami::stream::{
    BackgroundState, ResetPoll, RespondEvent, ResponseHead, SendEvent, Step, StreamEvent,
};

const AT: u64 = 1_475_419_451;

type Event = ForegroundEvent<String>;

fn running() -> H2Connection {
    let mut conn = H2::new().serve();
    let step = conn.poll_foreground::<String>(Event::Handshake(HandshakePoll::Done));
    assert!(matches!(step, Foreground::Continue(Want::Ready)));
    conn
}

fn accept(conn: &mut H2Connection, id: u32) {
    let step = conn.poll_foreground::<String>(Event::Ready(ReadyPoll::Ready));
    assert!(matches!(step, Foreground::Continue(Want::Accept)));
    let step = conn.poll_foreground::<String>(Event::Accept(AcceptPoll::Stream(id)));
    assert!(matches!(step, Foreground::Dispatch(got) if got == id));
}

fn ok_head(end_of_stream: bool) -> StreamEvent<String> {
    StreamEvent::Respond(RespondEvent::Ready(ResponseHead {
        status: 200,
        headers: HeaderMap::new(),
        content_length: None,
        end_of_stream,
    }))
}

fn sent() -> StreamEvent<String> {
    StreamEvent::Respond(RespondEvent::Sent)
}

fn data(bytes: &'static [u8], end_of_stream: bool) -> StreamEvent<String> {
    StreamEvent::Send(SendEvent::Data(Data(Bytes::from_static(bytes)), end_of_stream))
}

#[test]
fn connection_starts_with_the_handshake() {
    let mut h2 = H2::new();
    let _ = h2.protocol().max_concurrent_streams(10);
    let mut conn = h2.serve();
    assert!(matches!(conn.state(), State::Handshake));
    assert!(matches!(conn.want(), Want::Handshake));
    assert_eq!(conn.in_flight(), 0);
    let step = conn.poll_foreground::<String>(Event::Handshake(HandshakePoll::Pending));
    assert!(matches!(step, Foreground::Pending));
    assert!(matches!(conn.state(), State::Handshake));
    let step = conn.poll_foreground::<String>(Event::Handshake(HandshakePoll::Done));
    assert!(matches!(step, Foreground::Continue(Want::Ready)));
    assert!(matches!(conn.state(), State::Running { probed: false }));
    assert!(matches!(conn.want(), Want::Ready));
}

#[test]
fn default_builder_serves_like_a_new_one() {
    let conn = H2::default().serve();
    assert!(matches!(conn.state(), State::Handshake));
    assert!(!conn.is_closed());
}

#[test]
fn failed_handshake_closes_the_connection() {
    let mut conn = H2::new().serve();
    let step = conn.poll_foreground::<String>(Event::Handshake(HandshakePoll::Failed(Some(1))));
    match step {
        Foreground::Fail(error) => assert!(matches!(
            error.kind,
            H2ErrorKind::Protocol(ProtocolError::Engine(Some(1)))
        )),
        _ => panic!("the connection must fail"),
    }
    assert!(conn.is_closed());
    assert!(matches!(conn.want(), Want::Nothing));
}

#[test]
fn readiness_is_probed_before_each_accept() {
    let mut conn = running();
    let step = conn.poll_foreground::<String>(Event::Accept(AcceptPoll::Stream(1)));
    assert!(matches!(step, Foreground::Continue(Want::Ready)));
    assert_eq!(conn.in_flight(), 0);
    accept(&mut conn, 1);
    assert!(matches!(conn.want(), Want::Ready));
    assert_eq!(conn.in_flight(), 1);
    let step = conn.poll_foreground::<String>(Event::Ready(ReadyPoll::Ready));
    assert!(matches!(step, Foreground::Continue(Want::Accept)));
    let step = conn.poll_foreground::<String>(Event::Accept(AcceptPoll::Pending));
    assert!(matches!(step, Foreground::Pending));
    assert!(matches!(conn.want(), Want::Ready));
}

#[test]
fn unready_service_emits_goaway_and_takes_no_stream() {
    let mut conn = running();
    accept(&mut conn, 1);
    let step = conn.poll_foreground::<String>(Event::Ready(ReadyPoll::NotReady));
    assert!(matches!(step, Foreground::GoAway));
    assert!(matches!(conn.state(), State::Draining { engine: Engine::Running }));
    assert!(matches!(conn.want(), Want::Close));
    let step = conn.poll_foreground::<String>(Event::Accept(AcceptPoll::Stream(3)));
    assert!(matches!(step, Foreground::Continue(Want::Close)));
    let step = conn.poll_foreground::<String>(Event::Ready(ReadyPoll::Ready));
    assert!(matches!(step, Foreground::Continue(Want::Close)));
    assert_eq!(conn.in_flight(), 1);
    assert!(matches!(conn.state(), State::Draining { engine: Engine::Running }));
}

#[test]
fn failing_service_probe_closes_the_connection() {
    let mut conn = running();
    accept(&mut conn, 1);
    let step = conn.poll_foreground(Event::Ready(ReadyPoll::Failed(String::from("down"))));
    match step {
        Foreground::Fail(error) => match error.kind {
            H2ErrorKind::Service(e) => assert_eq!(e, "down"),
            _ => panic!("the error must be the service's"),
        },
        _ => panic!("the connection must fail"),
    }
    assert!(conn.is_closed());
    assert_eq!(conn.in_flight(), 0);
}

#[test]
fn graceful_shutdown_drains_the_streams_in_flight() {
    let mut conn = running();
    accept(&mut conn, 1);
    accept(&mut conn, 3);
    assert!(conn.graceful_shutdown());
    assert!(!conn.graceful_shutdown());
    assert_eq!(conn.in_flight(), 2);
    assert!(matches!(conn.want(), Want::Close));

    let step = conn.poll_close::<String>(Event::Accept(AcceptPoll::Stream(5)));
    assert!(matches!(step, Foreground::Continue(Want::Close)));
    assert_eq!(conn.in_flight(), 2);

    let step = conn.poll_close::<String>(Event::Close(ClosePoll::Pending));
    assert!(matches!(step, Foreground::Pending));
    let step = conn.poll_close::<String>(Event::Close(ClosePoll::Closed));
    assert!(matches!(step, Foreground::Pending));
    assert!(matches!(conn.state(), State::Draining { engine: Engine::Closed }));
    assert!(!conn.is_closed());

    assert!(matches!(conn.poll_background(1, ok_head(true), AT), Step::SendResponse { .. }));
    assert_eq!(conn.in_flight(), 2);
    assert!(matches!(conn.poll_background(1, sent(), AT), Step::Idle));
    assert_eq!(conn.in_flight(), 1);
    assert!(!conn.is_closed());
    assert!(matches!(conn.poll_background(3, ok_head(false), AT), Step::SendResponse { .. }));
    assert!(matches!(conn.poll_background(3, sent(), AT), Step::Continue));
    assert!(matches!(conn.poll_background(3, data(b"bye", true), AT), Step::SendData { .. }));
    assert_eq!(conn.in_flight(), 0);
    assert!(conn.is_closed());
    let step = conn.poll_close::<String>(Event::Close(ClosePoll::Pending));
    assert!(matches!(step, Foreground::Ready));
}

#[test]
fn graceful_shutdown_during_the_handshake_is_remembered() {
    let mut conn = H2::new().serve();
    assert!(!conn.graceful_shutdown());
    assert!(matches!(conn.state(), State::Draining { engine: Engine::Handshake }));
    assert!(matches!(conn.want(), Want::Handshake));
    let step = conn.poll_foreground::<String>(Event::Handshake(HandshakePoll::Pending));
    assert!(matches!(step, Foreground::Pending));
    let step = conn.poll_foreground::<String>(Event::Handshake(HandshakePoll::Done));
    assert!(matches!(step, Foreground::GoAway));
    assert!(matches!(conn.state(), State::Draining { engine: Engine::Running }));
    assert!(matches!(conn.want(), Want::Close));

    let step = conn.poll_foreground::<String>(Event::Ready(ReadyPoll::Ready));
    assert!(matches!(step, Foreground::Continue(Want::Close)));
    let step = conn.poll_foreground::<String>(Event::Accept(AcceptPoll::Stream(1)));
    assert!(matches!(step, Foreground::Continue(Want::Close)));
    assert_eq!(conn.in_flight(), 0);

    let step = conn.poll_close::<String>(Event::Close(ClosePoll::Closed));
    assert!(matches!(step, Foreground::Ready));
    assert!(conn.is_closed());
}

#[test]
fn handshake_that_fails_after_a_shutdown_closes_the_connection() {
    let mut conn = H2::new().serve();
    assert!(!conn.graceful_shutdown());
    let step = conn.poll_foreground::<String>(Event::Handshake(HandshakePoll::Failed(Some(1))));
    assert!(matches!(step, Foreground::Fail(_)));
    assert!(conn.is_closed());
}

#[test]
fn graceful_shutdown_of_a_drained_or_closed_connection_changes_nothing() {
    let mut conn = running();
    assert!(conn.graceful_shutdown());
    assert!(!conn.graceful_shutdown());
    assert!(matches!(conn.state(), State::Draining { engine: Engine::Running }));
    let _ = conn.poll_close::<String>(Event::Close(ClosePoll::Closed));
    assert!(conn.is_closed());
    assert!(!conn.graceful_shutdown());
    assert!(conn.is_closed());
}

#[test]
fn unready_service_drains_whenever_the_connection_runs() {
    let mut conn = running();
    let step = conn.poll_foreground::<String>(Event::Ready(ReadyPoll::Ready));
    assert!(matches!(step, Foreground::Continue(Want::Accept)));
    assert!(matches!(conn.state(), State::Running { probed: true }));
    let step = conn.poll_foreground::<String>(Event::Ready(ReadyPoll::NotReady));
    assert!(matches!(step, Foreground::GoAway));
    assert!(matches!(conn.state(), State::Draining { engine: Engine::Running }));
}

#[test]
fn instant_matters_only_for_a_head() {
    let mut conn = running();
    accept(&mut conn, 1);
    let step = conn.poll_background::<String>(
        1,
        StreamEvent::Respond(RespondEvent::Pending(ResetPoll::Pending)),
        u64::MAX,
    );
    assert!(matches!(step, Step::Pending));
    assert!(matches!(conn.poll_background(1, ok_head(false), AT), Step::SendResponse { .. }));
    assert!(matches!(conn.poll_background(1, sent(), u64::MAX), Step::Continue));
    assert!(matches!(
        conn.poll_background(1, data(b"late in time", true), u64::MAX),
        Step::SendData { end_of_stream: true, .. }
    ));
    assert_eq!(conn.in_flight(), 0);
}

#[test]
fn idle_connection_closes_with_the_engine() {
    let mut conn = running();
    let _ = conn.poll_foreground::<String>(Event::Ready(ReadyPoll::Ready));
    let step = conn.poll_close::<String>(Event::Accept(AcceptPoll::Finished));
    assert!(matches!(step, Foreground::Ready));
    assert!(conn.is_closed());
    let step = conn.poll_close::<String>(Event::Accept(AcceptPoll::Stream(9)));
    assert!(matches!(step, Foreground::Ready));
    assert_eq!(conn.in_flight(), 0);
}

#[test]
fn stream_error_leaves_the_other_stream_intact() {
    let mut conn = running();
    accept(&mut conn, 1);
    accept(&mut conn, 3);
    assert!(matches!(conn.poll_background(3, ok_head(false), AT), Step::SendResponse { .. }));
    assert!(matches!(conn.poll_background(3, sent(), AT), Step::Continue));
    let before = conn.stream(3).unwrap();

    let step = conn.poll_background(1, StreamEvent::Respond(RespondEvent::Failed(String::from("a"))), AT);
    assert!(matches!(step, Step::Fail { reset: Some(2), .. }));
    assert_eq!(conn.in_flight(), 1);
    assert!(matches!(conn.state(), State::Running { probed: false }));
    assert!(conn.stream(1).is_none());
    let after = conn.stream(3).unwrap();
    match (before.state, after.state) {
        (BackgroundState::Sending(a), BackgroundState::Sending(b)) => {
            assert_eq!(a.end_of_data, b.end_of_data);
            assert_eq!(a.owed, b.owed);
            assert_eq!(a.closed, b.closed);
        }
        _ => panic!("the other stream must still be sending"),
    }

    let step = conn.poll_background(3, data(b"intact", true), AT);
    match step {
        Step::SendData { buf, end_of_stream } => {
            assert_eq!(buf.bytes(), b"intact");
            assert!(end_of_stream);
        }
        _ => panic!("the other stream must go on"),
    }
    assert_eq!(conn.in_flight(), 0);
    assert!(!conn.is_closed());
    accept(&mut conn, 5);
    assert_eq!(conn.in_flight(), 1);
}

#[test]
fn concurrent_streams() {
    let mut conn = running();
    accept(&mut conn, 1);
    accept(&mut conn, 3);

    assert!(matches!(
        conn.poll_background::<String>(1, StreamEvent::Respond(RespondEvent::Pending(ResetPoll::Pending)), AT),
        Step::Pending
    ));
    assert!(matches!(conn.poll_background(3, ok_head(false), AT), Step::SendResponse { .. }));
    assert!(matches!(conn.poll_background(3, sent(), AT), Step::Continue));
    assert!(matches!(conn.poll_background(3, data(b"fast", true), AT), Step::SendData { end_of_stream: true, .. }));
    assert_eq!(conn.in_flight(), 1);
    assert!(matches!(conn.poll_background(1, ok_head(false), AT), Step::SendResponse { .. }));
    assert!(matches!(conn.poll_background(1, sent(), AT), Step::Continue));
    match conn.poll_background(1, data(b"slow", true), AT) {
        Step::SendData { buf, end_of_stream } => {
            assert_eq!(buf.bytes(), b"slow");
            assert!(end_of_stream);
        }
        _ => panic!("the delayed stream must complete"),
    }
    assert_eq!(conn.in_flight(), 0);
}

#[test]
fn event_for_an_unknown_stream_is_idle() {
    let mut conn = running();
    accept(&mut conn, 1);
    assert!(matches!(conn.poll_background(7, ok_head(true), AT), Step::Idle));
    assert_eq!(conn.in_flight(), 1);
}

#[test]
fn stream_identifier_is_enrolled_once() {
    let mut conn = running();
    accept(&mut conn, 1);
    let _ = conn.poll_foreground::<String>(Event::Ready(ReadyPoll::Ready));
    let step = conn.poll_foreground::<String>(Event::Accept(AcceptPoll::Stream(1)));
    match step {
        Foreground::Fail(error) => assert!(matches!(
            error.kind,
            H2ErrorKind::Protocol(ProtocolError::Unexpected)
        )),
        _ => panic!("the engine must not hand a stream out twice"),
    }
    assert!(conn.is_closed());
    assert_eq!(conn.in_flight(), 0);
}

#[test]
fn engine_failure_cancels_the_streams() {
    let mut conn = running();
    accept(&mut conn, 1);
    let _ = conn.poll_foreground::<String>(Event::Ready(ReadyPoll::Ready));
    let step = conn.poll_close::<String>(Event::Accept(AcceptPoll::Failed(None)));
    assert!(matches!(step, Foreground::Fail(_)));
    assert!(conn.is_closed());
    assert_eq!(conn.in_flight(), 0);
    assert!(matches!(conn.poll_background(1, ok_head(true), AT), Step::Idle));
}

#[test]
fn failure_while_draining_closes_the_connection() {
    let mut conn = running();
    accept(&mut conn, 1);
    assert!(conn.graceful_shutdown());
    let step = conn.poll_foreground::<String>(Event::Close(ClosePoll::Failed(Some(2))));
    assert!(matches!(step, Foreground::Fail(_)));
    assert!(conn.is_closed());
}

#[test]
fn refused_head_resets_the_stream_and_frees_its_place() {
    let mut conn = running();
    accept(&mut conn, 1);
    assert!(matches!(conn.poll_background(1, ok_head(false), AT), Step::SendResponse { .. }));
    let step = conn.poll_background::<String>(1, StreamEvent::Respond(RespondEvent::Refused(Some(7))), AT);
    match step {
        Step::Fail { reset, error } => {
            assert_eq!(reset, Some(2));
            assert!(matches!(
                error.kind,
                H2ErrorKind::Protocol(ProtocolError::Engine(Some(7)))
            ));
        }
        _ => panic!("the stream must be reset"),
    }
    assert_eq!(conn.in_flight(), 0);
    assert!(!conn.is_closed());
}
