use port_forward::acceptor::{AcceptAction, AcceptOutcome, Acceptor, AcceptorState, ChannelAction, ShutdownFlag};
use port_forward::error::{FatalError, Stage};
use port_forward::pump::{PumpAction, CHUNK_SIZE};
use port_forward::relay::{Direction, Relay};
use port_forward::session::{Startup, StartupAction, StartupState};

fn aborted(act: StartupAction) -> FatalError {
    match act {
        StartupAction::Abort(e) => e,
        other => panic!("expected an abort, got {:?}", other),
    }
}

#[test]
fn startup_runs_to_serving() {
    let mut s = Startup::new();
    assert_eq!(s.state, StartupState::Connecting);
    assert!(matches!(s.advance(Ok(())), StartupAction::Handshake));
    assert!(matches!(s.advance(Ok(())), StartupAction::Authenticate));
    assert!(matches!(s.advance(Ok(())), StartupAction::Bind));
    assert!(matches!(s.advance(Ok(())), StartupAction::Serve));
    assert_eq!(s.state, StartupState::Serving);
    assert!(matches!(s.advance(Ok(())), StartupAction::Done));
}

#[test]
fn wrong_key_is_fatal_and_never_binds() {
    let mut s = Startup::new();
    let _ = s.advance(Ok(()));
    let _ = s.advance(Ok(()));
    let e = aborted(s.advance(Err(None)));
    assert_eq!(e.stage, Stage::Authenticate);
    assert_eq!(e.message, "authentication failed");
    assert_eq!(e.describe(), "authentication error: authentication failed");
    assert_eq!(s.state, StartupState::Failed);
    assert!(matches!(s.advance(Ok(())), StartupAction::Done));
    assert!(matches!(s.advance(Ok(())), StartupAction::Done));
    assert_eq!(s.state, StartupState::Failed);
}

#[test]
fn auth_failure_keeps_the_provider_diagnostic() {
    let mut s = Startup::new();
    let _ = s.advance(Ok(()));
    let _ = s.advance(Ok(()));
    let e = aborted(s.advance(Err(Some("publickey denied".to_string()))));
    assert_eq!(e.stage, Stage::Authenticate);
    assert_eq!(e.message, "publickey denied");
}

#[test]
fn connect_handshake_and_bind_failures_are_fatal() {
    let mut s = Startup::new();
    let e = aborted(s.advance(Err(Some("connection refused".to_string()))));
    assert_eq!(e.stage, Stage::Connect);
    assert_eq!(e.message, "connection refused");
    assert_eq!(e.describe(), "connect error: connection refused");

    let mut s = Startup::new();
    let _ = s.advance(Ok(()));
    let e = aborted(s.advance(Err(None)));
    assert_eq!(e.stage, Stage::Handshake);
    assert_eq!(e.message, "handshake failed");

    let mut s = Startup::new();
    let _ = s.advance(Ok(()));
    let _ = s.advance(Ok(()));
    let _ = s.advance(Ok(()));
    let e = aborted(s.advance(Err(None)));
    assert_eq!(e.stage, Stage::Bind);
    assert_eq!(e.message, "bind failed");
    assert_eq!(e.describe(), "bind error: bind failed");
}

#[test]
fn shutdown_flag_is_set_once() {
    let mut f = ShutdownFlag::new();
    assert!(!f.is_requested());
    assert!(f.request());
    assert!(f.is_requested());
    assert!(!f.request());
    assert!(f.is_requested());
}

#[test]
fn acceptor_hands_on_connections_until_shutdown() {
    let mut flag = ShutdownFlag::new();
    let mut a = Acceptor::new();
    assert!(a.is_accepting());
    assert_eq!(a.on_accept(&flag, AcceptOutcome::Connection), AcceptAction::OpenChannel);
    assert_eq!(a.on_channel(true), ChannelAction::Spawn);
    assert_eq!(a.on_accept(&flag, AcceptOutcome::Connection), AcceptAction::OpenChannel);
    assert!(flag.request());
    // The self-connect that wakes the loop is not handed on.
    assert_eq!(a.on_accept(&flag, AcceptOutcome::Connection), AcceptAction::Stop);
    assert_eq!(a.state, AcceptorState::Stopped);
    assert!(!a.is_accepting());
    assert_eq!(a.on_accept(&flag, AcceptOutcome::Connection), AcceptAction::Stop);
    assert!(a.finish().is_ok());
}

#[test]
fn channel_failure_drops_only_that_connection() {
    let flag = ShutdownFlag::new();
    let mut a = Acceptor::new();
    assert_eq!(a.on_accept(&flag, AcceptOutcome::Connection), AcceptAction::OpenChannel);
    assert_eq!(a.on_channel(false), ChannelAction::Drop);
    assert!(a.is_accepting());
    assert_eq!(a.on_accept(&flag, AcceptOutcome::Connection), AcceptAction::OpenChannel);
}

#[test]
fn listener_failure_is_fatal() {
    let flag = ShutdownFlag::new();
    let mut a = Acceptor::new();
    let act = a.on_accept(&flag, AcceptOutcome::ListenerError("too many open files".to_string()));
    assert_eq!(act, AcceptAction::Stop);
    assert_eq!(a.state, AcceptorState::Broken);
    let e = a.finish().unwrap_err();
    assert_eq!(e.stage, Stage::Accept);
    assert_eq!(e.message, "too many open files");
    assert_eq!(e.describe(), "accept error: too many open files");
}

#[test]
fn shutdown_wins_over_a_listener_error() {
    let mut flag = ShutdownFlag::new();
    flag.request();
    let mut a = Acceptor::new();
    let act = a.on_accept(&flag, AcceptOutcome::ListenerError("boom".to_string()));
    assert_eq!(act, AcceptAction::Stop);
    assert_eq!(a.state, AcceptorState::Stopped);
    assert!(a.finish().is_ok());
}

#[test]
fn shutdown_lets_a_relay_in_flight_finish() {
    let mut flag = ShutdownFlag::new();
    let mut a = Acceptor::new();
    assert_eq!(a.on_accept(&flag, AcceptOutcome::Connection), AcceptAction::OpenChannel);
    let mut relay = Relay::new();
    let mut buf = vec![0u8; CHUNK_SIZE];
    buf[..3].copy_from_slice(b"abc");
    let _ = relay.on_read(Direction::Upstream, &buf, 3);

    assert!(flag.request());
    assert_eq!(a.on_accept(&flag, AcceptOutcome::Connection), AcceptAction::Stop);

    assert!(matches!(relay.on_written(Direction::Upstream, true), PumpAction::Read));
    let _ = relay.on_read(Direction::Upstream, &buf, 0);
    let _ = relay.on_read(Direction::Downstream, &buf, 0);
    assert!(relay.is_done());
    assert!(relay.close());
    assert_eq!(relay.upstream.transferred, 3);
}
