use task_tracker::event::{new_feed, EntityType, UpdateEvent, UpdateKind};
use task_tracker::gateway::{Directive, Observation, Session, SessionState};
use tokio::sync::broadcast::error::TryRecvError;

fn event(n: u128) -> UpdateEvent {
    UpdateEvent { kind: UpdateKind::Update, entity_id: n, entity_type: EntityType::Task }
}

fn open_session() -> Session {
    let feed = new_feed(4).unwrap();
    let (session, _reader) = Session::open(&feed);
    session
}

#[test]
fn session_starts_open() {
    let session = open_session();
    assert_eq!(session.state(), SessionState::Open);
    assert!(!session.is_closed());
}

#[test]
fn session_subscribes_on_entry() {
    let feed = new_feed(4).unwrap();
    assert_eq!(feed.receiver_count(), 0);
    let (_session, mut reader) = Session::open(&feed);
    assert_eq!(feed.receiver_count(), 1);
    feed.send(event(5)).unwrap();
    assert_eq!(reader.try_recv().unwrap(), event(5));
    assert_eq!(reader.try_recv(), Err(TryRecvError::Empty));
}

#[test]
fn session_forwards_each_event_once_in_order() {
    let mut session = open_session();
    for n in 1..=5u128 {
        let d = session.step(Observation::Event { event: event(n), stream_terminated: false });
        assert_eq!(d, Directive::Forward(event(n)));
        assert_eq!(session.state(), SessionState::Open);
        assert_eq!(session.step(Observation::Forwarded), Directive::AwaitNext);
        assert_eq!(session.state(), SessionState::Open);
    }
}

#[test]
fn session_keeps_going_after_feed_and_encoding_failures() {
    let mut session = open_session();
    assert_eq!(session.step(Observation::FeedFailure), Directive::AwaitNext);
    assert_eq!(session.state(), SessionState::Open);
    assert_eq!(
        session.step(Observation::Event { event: event(1), stream_terminated: false }),
        Directive::Forward(event(1))
    );
    assert_eq!(session.step(Observation::EncodingFailed), Directive::AwaitNext);
    assert_eq!(session.state(), SessionState::Open);
}

#[test]
fn session_closes_without_writing_when_the_stream_has_ended() {
    let mut session = open_session();
    let d = session.step(Observation::Event { event: event(1), stream_terminated: true });
    assert_eq!(d, Directive::Finish { clean: true });
    assert_eq!(session.state(), SessionState::Closed);
    assert!(session.is_closed());
}

#[test]
fn session_closes_on_a_failed_write() {
    let mut session = open_session();
    session.step(Observation::Event { event: event(1), stream_terminated: false });
    assert_eq!(session.step(Observation::WriteFailed), Directive::Finish { clean: false });
    assert_eq!(session.state(), SessionState::Closed);
    let d = session.step(Observation::Event { event: event(2), stream_terminated: false });
    assert_eq!(d, Directive::Finish { clean: true });
    assert_eq!(session.state(), SessionState::Closed);
}

#[test]
fn session_shuts_down_through_closing() {
    let mut session = open_session();
    assert_eq!(session.step(Observation::Shutdown), Directive::CloseHandshake);
    assert_eq!(session.state(), SessionState::Closing);
    assert_eq!(session.step(Observation::CloseCompleted), Directive::Finish { clean: true });
    assert_eq!(session.state(), SessionState::Closed);
}

#[test]
fn session_reports_a_failed_close_handshake() {
    let mut session = open_session();
    assert_eq!(session.step(Observation::Shutdown), Directive::CloseHandshake);
    assert_eq!(session.step(Observation::CloseFailed), Directive::Finish { clean: false });
    assert_eq!(session.state(), SessionState::Closed);
}

#[test]
fn session_forwards_nothing_while_closing() {
    let mut session = open_session();
    session.step(Observation::Shutdown);
    let d = session.step(Observation::Event { event: event(1), stream_terminated: false });
    assert_eq!(d, Directive::Finish { clean: true });
    assert_eq!(session.state(), SessionState::Closed);
}

#[test]
fn closed_session_stays_closed() {
    let mut session = open_session();
    session.step(Observation::WriteFailed);
    let all = vec![
        Observation::Event { event: event(1), stream_terminated: false },
        Observation::Event { event: event(1), stream_terminated: true },
        Observation::FeedFailure,
        Observation::EncodingFailed,
        Observation::Forwarded,
        Observation::WriteFailed,
        Observation::Shutdown,
        Observation::CloseCompleted,
        Observation::CloseFailed,
    ];
    for seen in all {
        assert_eq!(session.step(seen), Directive::Finish { clean: true });
        assert_eq!(session.state(), SessionState::Closed);
    }
}
