use procyon::config::Config;
use procyon::log::{log, stop, Log, LogMessage};
use procyon::socket::SocketMessage;
use procyon::supervisor::{Session, SessionAction, State, Status, TickAction};

#[test]
fn five_consecutive_failures_end_the_process() {
    let mut state = State::new();
    for _ in 0..4 {
        state.on_connect_result(false);
        assert_eq!(state.tick(), TickAction::RetrySleep);
    }
    state.on_connect_result(false);
    assert_eq!(state.tick(), TickAction::Exit);
}

#[test]
fn attempt_counter_resets_after_success() {
    let mut state = State::new();
    state.on_connect_result(false);
    assert_eq!(state.tick(), TickAction::RetrySleep);
    state.on_connect_result(true);
    assert_eq!(state.tick(), TickAction::RunSession);
    assert_eq!(state.conn_attempts, 0);
    let exit = state.on_session_end(false);
    assert!(!exit);
    assert_eq!(state.status, Status::Disconnected);
    state.on_connect_result(false);
    assert_eq!(state.tick(), TickAction::RetrySleep);
}

#[test]
fn session_end_with_quit_ends_the_process() {
    let mut state = State::new();
    state.on_connect_result(true);
    assert_eq!(state.tick(), TickAction::RunSession);
    let exit = state.on_session_end(true);
    assert!(exit);
}

#[test]
fn session_forwards_inbound_lines() {
    let mut session = Session::new();
    match session.step(SocketMessage::Input(b"PING :x".to_vec())) {
        SessionAction::ForwardLine(l) => assert_eq!(l, b"PING :x".to_vec()),
        _ => panic!("inbound line was not forwarded"),
    }
    assert!(!session.should_exit);
}

#[test]
fn session_writes_outbound_lines() {
    let mut session = Session::new();
    match session.step(SocketMessage::Output(b"PONG :x".to_vec())) {
        SessionAction::WriteLine(l) => assert_eq!(l, b"PONG :x".to_vec()),
        _ => panic!("outbound line was not written"),
    }
    assert!(!session.should_exit);
}

#[test]
fn disconnect_request_writes_quit_and_marks_exit() {
    let mut session = Session::new();
    match session.step(SocketMessage::WantDisconnected) {
        SessionAction::WriteLine(l) => assert_eq!(l, b"QUIT :Leaving".to_vec()),
        _ => panic!("the quit line was not written"),
    }
    assert!(session.should_exit);
}

#[test]
fn peer_disconnect_shuts_the_engine_down() {
    let mut session = Session::new();
    assert!(matches!(session.step(SocketMessage::Disconnected), SessionAction::ShutdownEngine));
    assert!(!session.should_exit);
}

#[test]
fn read_error_ends_the_session() {
    let mut session = Session::new();
    assert!(matches!(session.step(SocketMessage::Error), SessionAction::EndSession));
    assert!(!session.should_exit);
}

#[test]
fn log_sink_prefixes_messages() {
    let mut sink = Log::new();
    let out = sink.handle(log(&b"started logging thread".to_vec()));
    assert_eq!(out, Some(b"procyon: started logging thread".to_vec()));
    assert!(!sink.stopped);
}

#[test]
fn log_sink_stops_on_shutdown() {
    let mut sink = Log::new();
    assert_eq!(sink.handle(stop()), None);
    assert!(sink.stopped);
    assert_eq!(sink.handle(log(&b"late".to_vec())), None);
}

#[test]
fn log_message_wraps_text() {
    match log(&b"hello".to_vec()) {
        LogMessage::Message(s) => assert_eq!(s, b"hello".to_vec()),
        LogMessage::Shutdown => panic!("text became a shutdown message"),
    }
    assert!(matches!(stop(), LogMessage::Shutdown));
}

#[test]
fn config_holds_the_two_parameters() {
    let cfg = Config::new("irc.example:6667".to_string(), "#chan".to_string());
    assert_eq!(cfg.socket_addr, "irc.example:6667");
    assert_eq!(cfg.channel, "#chan");
}
