use alleycat::error::TerminalWireError;
use alleycat::payload::{
    exit_payload, resize_payload, ErrorPayload, HelloPayload, StartPayload, TerminalSize,
};
use alleycat::session::{
    error_frame, hello_frame, SessionAction, SessionEvent, SessionFailure, SessionPhase,
    ShutdownReason, TerminalEvent,
};
use alleycat::wire::{read_frame, TerminalFrame, TerminalFrameKind};

struct Run {
    phase: SessionPhase,
}

impl Run {
    fn begin() -> Run {
        let (phase, action) = SessionPhase::begin();
        assert!(matches!(action, SessionAction::ReadFrame));
        Run { phase }
    }

    fn step(self, event: SessionEvent) -> (Run, SessionAction) {
        assert!(self.phase.can_happen(&event), "{event:?} in {:?}", self.phase);
        let (phase, action) = self.phase.step(event);
        (Run { phase }, action)
    }

    fn greeted() -> Run {
        let (run, action) = Run::begin().step(frame(TerminalFrameKind::Hello, b"{hello}"));
        assert!(matches!(action, SessionAction::DecodeHello(p) if p == b"{hello}"));
        let (run, action) = run.step(SessionEvent::Hello(hello(1, 1)));
        match action {
            SessionAction::SendHello(reply) => {
                assert_eq!((reply.min_version, reply.max_version), (1, 1));
                assert_eq!(reply.features.len(), 8);
            }
            other => panic!("{other:?}"),
        }
        let (run, action) = run.step(SessionEvent::Done);
        assert!(matches!(action, SessionAction::ReadFrame));
        run
    }

    fn spawning(cols: u16, rows: u16) -> (Run, SessionAction) {
        let (run, action) = Run::greeted().step(frame(TerminalFrameKind::Start, b"{start}"));
        assert!(matches!(action, SessionAction::DecodeStart(p) if p == b"{start}"));
        run.step(SessionEvent::Start(StartPayload {
            cols,
            rows,
            cwd: Some("/work".to_string()),
        }))
    }

    fn live() -> Run {
        let (run, action) = Run::spawning(80, 24);
        match action {
            SessionAction::Spawn { cwd, size } => {
                assert_eq!(cwd.as_deref(), Some("/work"));
                assert_eq!(size, TerminalSize { cols: 80, rows: 24 });
            }
            other => panic!("{other:?}"),
        }
        let (run, action) = run.step(SessionEvent::Spawned);
        assert!(matches!(action, SessionAction::Wait { read_client: true }));
        run
    }

    fn done(self) -> Run {
        let (run, action) = self.step(SessionEvent::Done);
        assert!(matches!(action, SessionAction::Wait { .. }));
        run
    }

    /// Sends the refusal and returns what the session fails with.
    fn refused(self, action: SessionAction, code: &str, message: &str) -> SessionFailure {
        match action {
            SessionAction::SendError(error) => {
                assert_eq!(error, ErrorPayload::new(code, message));
            }
            other => panic!("{other:?}"),
        }
        failure(self.step(SessionEvent::Done))
    }
}

fn failure((run, action): (Run, SessionAction)) -> SessionFailure {
    assert!(matches!(run.phase, SessionPhase::Ended));
    match action {
        SessionAction::Fail(failure) => failure,
        other => panic!("{other:?}"),
    }
}

fn frame(kind: TerminalFrameKind, payload: &[u8]) -> SessionEvent {
    SessionEvent::Frame(TerminalFrame {
        kind,
        payload: payload.to_vec(),
    })
}

fn hello(min_version: u16, max_version: u16) -> HelloPayload {
    HelloPayload {
        min_version,
        max_version,
        features: vec!["output".to_string()],
    }
}

fn output(bytes: &[u8]) -> SessionEvent {
    SessionEvent::Terminal(TerminalEvent::Output(bytes.to_vec()))
}

fn sent(action: SessionAction) -> TerminalFrame {
    match action {
        SessionAction::SendFrame(frame) => frame,
        other => panic!("{other:?}"),
    }
}

#[test]
fn droid_pty_rejects_old_jsonl_peer_without_session_start() {
    let mut client: &[u8] =
        br#"{"jsonrpc":"2.0","method":"initialize","params":{"token":"terminal-secret-fixture"}}"#;
    let unreadable = read_frame(&mut client).unwrap_err();
    let (run, action) = Run::begin().step(SessionEvent::ReadFailed(unreadable));
    let error = match action {
        SessionAction::SendError(error) => error,
        other => panic!("{other:?}"),
    };
    assert_eq!(error.code, "unsupported_peer");
    assert!(!error.message.contains("terminal-secret-fixture"));
    let frame = error_frame(error.message.clone().into_bytes());
    assert_eq!(frame.kind, TerminalFrameKind::Error);

    let result = failure(run.step(SessionEvent::Done));
    assert_eq!(
        result.message().as_deref(),
        Some("unsupported terminal peer: invalid magic 7b226a73")
    );
}

#[test]
fn unreadable_peer_is_refused_for_its_own_fault_even_if_telling_it_fails() {
    let (run, _) = Run::begin().step(SessionEvent::ReadFailed(TerminalWireError::UnknownKind(9)));
    let why = failure(run.step(SessionEvent::Failed));
    assert!(matches!(
        why,
        SessionFailure::Wire(TerminalWireError::UnknownKind(9))
    ));
}

#[test]
fn known_peer_that_cannot_be_told_fails_with_that() {
    let (run, _) = Run::begin().step(frame(TerminalFrameKind::Input, b""));
    let why = failure(run.step(SessionEvent::Failed));
    assert!(matches!(why, SessionFailure::Outside));
    assert_eq!(why.message(), None);
}

#[test]
fn first_frame_must_be_a_hello() {
    let (run, action) = Run::begin().step(frame(TerminalFrameKind::Start, b""));
    let why = run.refused(action, "expected_hello", "expected hello frame");
    assert_eq!(why.message().as_deref(), Some("expected terminal hello frame"));
}

#[test]
fn hello_must_decode() {
    let (run, _) = Run::begin().step(frame(TerminalFrameKind::Hello, b"nonsense"));
    let (run, action) = run.step(SessionEvent::Undecodable);
    let why = run.refused(action, "invalid_hello", "invalid hello payload");
    assert!(matches!(why, SessionFailure::Wire(TerminalWireError::Decode)));
}

#[test]
fn versions_must_overlap() {
    for (min, max) in [(2, 3), (0, 0), (2, 0)] {
        let (run, _) = Run::begin().step(frame(TerminalFrameKind::Hello, b""));
        let (run, action) = run.step(SessionEvent::Hello(hello(min, max)));
        let why = run.refused(
            action,
            "unsupported_version",
            "terminal protocol version is unsupported",
        );
        assert_eq!(
            why.message().as_deref(),
            Some("unsupported terminal protocol version")
        );
    }
    for (min, max) in [(0, 1), (1, 9), (0, 65535)] {
        let (run, _) = Run::begin().step(frame(TerminalFrameKind::Hello, b""));
        let (_, action) = run.step(SessionEvent::Hello(hello(min, max)));
        assert!(matches!(action, SessionAction::SendHello(_)));
    }
}

#[test]
fn unanswered_hello_fails_the_session() {
    let (run, _) = Run::begin().step(frame(TerminalFrameKind::Hello, b""));
    let (run, _) = run.step(SessionEvent::Hello(hello(1, 1)));
    assert!(matches!(
        failure(run.step(SessionEvent::Failed)),
        SessionFailure::Outside
    ));
}

#[test]
fn second_frame_must_be_a_start() {
    let (run, action) = Run::greeted().step(frame(TerminalFrameKind::Input, b"x"));
    let why = run.refused(action, "expected_start", "expected start frame");
    assert_eq!(why.message().as_deref(), Some("expected terminal start frame"));

    let end = Run::greeted().step(SessionEvent::ReadFailed(TerminalWireError::Decode));
    assert!(matches!(
        failure(end),
        SessionFailure::Wire(TerminalWireError::Decode)
    ));
}

#[test]
fn start_must_decode_and_have_a_size() {
    let (run, _) = Run::greeted().step(frame(TerminalFrameKind::Start, b""));
    let (run, action) = run.step(SessionEvent::Undecodable);
    let why = run.refused(action, "invalid_start", "invalid start payload");
    assert!(matches!(why, SessionFailure::Wire(TerminalWireError::Decode)));

    let (run, action) = Run::spawning(0, 24);
    let words = "terminal size must be non-zero, got 0x24";
    let why = run.refused(action, "invalid_size", words);
    assert_eq!(why.message().as_deref(), Some(words));
}

#[test]
fn failed_spawn_is_told() {
    let (run, _) = Run::spawning(80, 24);
    let (run, action) = run.step(SessionEvent::SpawnFailed("no such file".to_string()));
    let why = run.refused(
        action,
        "spawn_failed",
        "Droid PTY failed to start: no such file",
    );
    assert!(matches!(why, SessionFailure::Outside));

    let (run, _) = Run::spawning(80, 24);
    let (run, action) = run.step(SessionEvent::SpawnAborted);
    run.refused(action, "spawn_failed", "Droid PTY spawn task failed");
}

#[test]
fn input_resize_and_output_pass_through() {
    let input = b"/missions\x1b[A\t\x03bracketed\x1b[200~paste\x1b[201~\n";
    let (run, action) = Run::live().step(frame(TerminalFrameKind::Input, input));
    assert!(matches!(action, SessionAction::WriteInput(bytes) if bytes == input));
    let size = TerminalSize {
        cols: 132,
        rows: 43,
    };
    let (run, action) = run
        .done()
        .step(frame(TerminalFrameKind::Resize, &resize_payload(size)));
    assert!(matches!(action, SessionAction::Resize(s) if s == size));
    let (run, action) = run.done().step(output(b"\xff\x00out"));
    assert_eq!(
        sent(action),
        TerminalFrame {
            kind: TerminalFrameKind::Output,
            payload: b"\xff\x00out".to_vec()
        }
    );
    run.done();
}

#[test]
fn malformed_or_empty_resize_fails_the_session() {
    let zero = resize_payload(TerminalSize { cols: 5, rows: 0 });
    for payload in [&b"abc"[..], &zero[..]] {
        let (run, action) = Run::live().step(frame(TerminalFrameKind::Resize, payload));
        assert!(matches!(
            action,
            SessionAction::Shutdown(ShutdownReason::StreamError)
        ));
        let why = failure(run.step(SessionEvent::Done));
        if payload.len() == 3 {
            assert!(matches!(why, SessionFailure::Wire(TerminalWireError::Decode)));
        } else {
            assert_eq!(
                why.message().as_deref(),
                Some("terminal size must be non-zero, got 5x0")
            );
        }
    }
}

#[test]
fn unexpected_frames_are_answered_and_survived() {
    for kind in [
        TerminalFrameKind::Hello,
        TerminalFrameKind::Start,
        TerminalFrameKind::Output,
        TerminalFrameKind::Exit,
        TerminalFrameKind::Error,
    ] {
        let (run, action) = Run::live().step(frame(kind, b"?"));
        match action {
            SessionAction::SendError(error) => assert_eq!(
                error,
                ErrorPayload::new("unexpected_frame", "unexpected client terminal frame")
            ),
            other => panic!("{other:?}"),
        }
        run.done();
    }
}

#[test]
fn close_shuts_down_and_reads_no_more() {
    let (run, action) = Run::live().step(frame(TerminalFrameKind::Close, b""));
    assert!(matches!(
        action,
        SessionAction::Shutdown(ShutdownReason::ClientClose)
    ));
    let (run, action) = run.step(SessionEvent::Done);
    assert!(matches!(action, SessionAction::Wait { read_client: false }));
    assert!(!run.phase.can_happen(&frame(TerminalFrameKind::Input, b"late")));
    let (run, action) = run.step(output(b"bye"));
    assert_eq!(sent(action).payload, b"bye");
    let (run, action) = run.step(SessionEvent::Done);
    assert!(matches!(action, SessionAction::Wait { read_client: false }));
    let (run, _) = run.step(SessionEvent::Terminal(TerminalEvent::OutputClosed));
    let (run, action) = run.step(SessionEvent::Terminal(TerminalEvent::Exit(0)));
    assert_eq!(sent(action).kind, TerminalFrameKind::Exit);
    let (_, action) = run.step(SessionEvent::Done);
    assert!(matches!(action, SessionAction::Finish));
}

#[test]
fn exit_waits_for_the_end_of_the_output() {
    let (run, action) = Run::live().step(SessionEvent::Terminal(TerminalEvent::Exit(-2)));
    assert!(matches!(action, SessionAction::Wait { read_client: true }));
    let (run, action) = run.step(output(b"tail"));
    assert_eq!(sent(action).kind, TerminalFrameKind::Output);
    let (run, action) = run
        .done()
        .step(SessionEvent::Terminal(TerminalEvent::OutputClosed));
    assert_eq!(
        sent(action),
        TerminalFrame {
            kind: TerminalFrameKind::Exit,
            payload: exit_payload(-2).to_vec()
        }
    );
    let (run, action) = run.step(SessionEvent::Done);
    assert!(matches!(action, SessionAction::Finish));
    assert!(!run.phase.can_happen(&SessionEvent::Done));
}

#[test]
fn vanished_terminal_ends_the_session() {
    let (_, action) = Run::live().step(SessionEvent::TerminalGone);
    assert!(matches!(action, SessionAction::Finish));

    let (run, _) = Run::live().step(SessionEvent::Terminal(TerminalEvent::Exit(7)));
    let (run, action) = run.step(SessionEvent::TerminalGone);
    assert_eq!(sent(action).payload, exit_payload(7).to_vec());
    let (_, action) = run.step(SessionEvent::Done);
    assert!(matches!(action, SessionAction::Finish));
}

#[test]
fn lost_client_shuts_the_terminal_down() {
    let (run, action) = Run::live().step(SessionEvent::ReadFailed(TerminalWireError::Decode));
    assert!(matches!(
        action,
        SessionAction::Shutdown(ShutdownReason::ClientDisconnect)
    ));
    let (_, action) = run.step(SessionEvent::Done);
    assert!(matches!(action, SessionAction::Finish));
}

#[test]
fn failure_in_a_live_session_shuts_the_terminal_down() {
    let (run, _) = Run::live().step(output(b"x"));
    let (run, action) = run.step(SessionEvent::Failed);
    assert!(matches!(
        action,
        SessionAction::Shutdown(ShutdownReason::StreamError)
    ));
    assert!(matches!(
        failure(run.step(SessionEvent::Failed)),
        SessionFailure::Outside
    ));
}

#[test]
fn encoded_payloads_get_their_frames() {
    assert_eq!(
        hello_frame(b"{}".to_vec()),
        TerminalFrame {
            kind: TerminalFrameKind::Hello,
            payload: b"{}".to_vec()
        }
    );
    assert_eq!(error_frame(vec![]).kind, TerminalFrameKind::Error);
    assert_eq!(ShutdownReason::ClientDisconnect.name(), "client_disconnect");
    assert_eq!(ShutdownReason::ClientClose.name(), "client_close");
    assert_eq!(ShutdownReason::StreamError.name(), "stream_error");
}
