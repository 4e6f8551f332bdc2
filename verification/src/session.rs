//! A terminal session as its server sees it: the handshake, the spawning of
//! the terminal, and the traffic between client and terminal until one of them
//! goes. Each step takes what just happened and says what to do next.
use crate::error::TerminalWireError;
use crate::error::WireErrorView;
use crate::payload::decode_resize_payload;
use crate::payload::exit_bytes;
use crate::payload::exit_payload;
use crate::payload::hello_reply;
use crate::payload::resize_value;
use crate::payload::server_hello;
use crate::payload::speaks_version;
use crate::payload::validate_size;
use crate::payload::ErrorPayload;
use crate::payload::ErrorView;
use crate::payload::HelloPayload;
use crate::payload::HelloView;
use crate::payload::InvalidSize;
use crate::payload::StartPayload;
use crate::payload::StartView;
use crate::payload::TerminalSize;
use crate::text::opt_owned_text;
use crate::wire::FrameView;
use crate::wire::TerminalFrame;
use crate::wire::TerminalFrameKind;
use crate::wire::TERMINAL_PROTOCOL_VERSION;
use vstd::prelude::*;
use vstd::slice::slice_to_vec;
use vstd::string::to_string_from_display_ensures;

verus! {

/// What the terminal's side of a session reports.
#[derive(Debug, Clone, PartialEq, Eq)]
pub enum TerminalEvent {
    /// The terminal wrote these bytes.
    Output(Vec<u8>),
    /// The terminal will write no more.
    OutputClosed,
    /// The terminal's process ended with this code.
    Exit(i32),
}

/// Why the terminal is shut down.
#[derive(Debug, Clone, Copy, PartialEq, Eq, Structural)]
pub enum ShutdownReason {
    /// The client's stream ended or broke.
    ClientDisconnect,
    /// The client asked for it.
    ClientClose,
    /// The session failed.
    StreamError,
}

impl ShutdownReason {
    /// The reason's name.
    pub open spec fn words(self) -> Seq<char> {
        match self {
            ShutdownReason::ClientDisconnect => "client_disconnect"@,
            ShutdownReason::ClientClose => "client_close"@,
            ShutdownReason::StreamError => "stream_error"@,
        }
    }

    /// The reason's name.
    pub fn name(&self) -> (r: &'static str)
        ensures
            r@ == self.words(),
    {
        match self {
            ShutdownReason::ClientDisconnect => "client_disconnect",
            ShutdownReason::ClientClose => "client_close",
            ShutdownReason::StreamError => "stream_error",
        }
    }
}

/// Why a session failed.
#[derive(Debug)]
pub enum SessionFailure {
    /// A frame could not be read, or its payload is malformed.
    Wire(TerminalWireError),
    /// The first frame was not a hello.
    ExpectedHello,
    /// The client speaks other versions of the protocol.
    UnsupportedVersion,
    /// The second frame was not a start request.
    ExpectedStart,
    /// The client asked for a size that no terminal can have.
    Size(InvalidSize),
    /// Something that the session asked for failed; whoever did it knows why.
    Outside,
}

/// What a live session remembers.
#[derive(Debug, Clone, Copy, PartialEq, Eq, Structural)]
pub struct RunState {
    /// The client asked to close; nothing more is read from it.
    pub close_requested: bool,
    /// The terminal will write no more.
    pub output_closed: bool,
    /// The code that the terminal's process ended with.
    pub pending_exit: Option<i32>,
}

/// Where a session stands.
#[derive(Debug)]
pub enum SessionPhase {
    /// The client's first frame is being read.
    AwaitingHello,
    /// The client's hello is being decoded.
    DecodingHello,
    /// The hello is being answered.
    SendingHello,
    /// The client's second frame is being read.
    AwaitingStart,
    /// The client's start request is being decoded.
    DecodingStart,
    /// The terminal is being spawned.
    Spawning,
    /// The next client frame or terminal event is being waited for.
    Waiting(RunState),
    /// A client frame or terminal event is being dealt with.
    Acting(RunState),
    /// The last thing before an orderly end is being done.
    Leaving,
    /// The client is being told why it is refused. If telling it fails, that
    /// is what the session fails with, unless it was never a proper peer.
    Refusing { failure: SessionFailure, peer_known: bool },
    /// The terminal is being shut down because the session failed.
    CleaningUp(SessionFailure),
    /// The session is over.
    Ended,
}

/// What happened.
#[derive(Debug)]
pub enum SessionEvent {
    /// A frame arrived from the client.
    Frame(TerminalFrame),
    /// No frame could be read from the client.
    ReadFailed(TerminalWireError),
    /// The hello payload was decoded.
    Hello(HelloPayload),
    /// The start payload was decoded.
    Start(StartPayload),
    /// The payload could not be decoded.
    Undecodable,
    /// The terminal was spawned.
    Spawned,
    /// The terminal could not be spawned, for this reason.
    SpawnFailed(String),
    /// The task that should have spawned the terminal broke off.
    SpawnAborted,
    /// The terminal's side reported something.
    Terminal(TerminalEvent),
    /// The terminal's side will report nothing more.
    TerminalGone,
    /// What was asked for has been done.
    Done,
    /// What was asked for could not be done.
    Failed,
}

/// What to do next.
#[derive(Debug)]
pub enum SessionAction {
    /// Read a frame from the client.
    ReadFrame,
    /// Decode this hello payload.
    DecodeHello(Vec<u8>),
    /// Decode this start payload.
    DecodeStart(Vec<u8>),
    /// Send a hello frame.
    SendHello(HelloPayload),
    /// Send an error frame.
    SendError(ErrorPayload),
    /// Send this frame.
    SendFrame(TerminalFrame),
    /// Spawn a terminal.
    Spawn { cwd: Option<String>, size: TerminalSize },
    /// Wait for a terminal event, and for a client frame if `read_client`.
    Wait { read_client: bool },
    /// Write these bytes to the terminal.
    WriteInput(Vec<u8>),
    /// Resize the terminal.
    Resize(TerminalSize),
    /// Shut the terminal down.
    Shutdown(ShutdownReason),
    /// The session is over and went well.
    Finish,
    /// The session is over and failed.
    Fail(SessionFailure),
}

/// What the terminal's side of a session reports.
pub enum TerminalEventView {
    Output(Seq<u8>),
    OutputClosed,
    Exit(i32),
}

impl View for TerminalEvent {
    type V = TerminalEventView;

    open spec fn view(&self) -> TerminalEventView {
        match *self {
            TerminalEvent::Output(bytes) => TerminalEventView::Output(bytes@),
            TerminalEvent::OutputClosed => TerminalEventView::OutputClosed,
            TerminalEvent::Exit(code) => TerminalEventView::Exit(code),
        }
    }
}

impl TerminalEvent {
    /// Whether the output ends with this report, so that no read follows it.
    pub fn is_last(&self) -> (r: bool)
        ensures
            r == (self@ is OutputClosed),
    {
        match self {
            TerminalEvent::OutputClosed => true,
            _ => false,
        }
    }
}

/// What happened.
pub enum EventView {
    Frame(FrameView),
    ReadFailed(TerminalWireError),
    Hello(HelloView),
    Start(StartView),
    Undecodable,
    Spawned,
    SpawnFailed(Seq<char>),
    SpawnAborted,
    Terminal(TerminalEventView),
    TerminalGone,
    Done,
    Failed,
}

impl View for SessionEvent {
    type V = EventView;

    open spec fn view(&self) -> EventView {
        match *self {
            SessionEvent::Frame(frame) => EventView::Frame(frame@),
            SessionEvent::ReadFailed(e) => EventView::ReadFailed(e),
            SessionEvent::Hello(hello) => EventView::Hello(hello@),
            SessionEvent::Start(start) => EventView::Start(start@),
            SessionEvent::Undecodable => EventView::Undecodable,
            SessionEvent::Spawned => EventView::Spawned,
            SessionEvent::SpawnFailed(why) => EventView::SpawnFailed(why@),
            SessionEvent::SpawnAborted => EventView::SpawnAborted,
            SessionEvent::Terminal(event) => EventView::Terminal(event@),
            SessionEvent::TerminalGone => EventView::TerminalGone,
            SessionEvent::Done => EventView::Done,
            SessionEvent::Failed => EventView::Failed,
        }
    }
}

/// What to do next.
pub enum ActionView {
    ReadFrame,
    DecodeHello(Seq<u8>),
    DecodeStart(Seq<u8>),
    SendHello(HelloView),
    SendError(ErrorView),
    SendFrame(FrameView),
    Spawn { cwd: Option<Seq<char>>, size: TerminalSize },
    Wait { read_client: bool },
    WriteInput(Seq<u8>),
    Resize(TerminalSize),
    Shutdown(ShutdownReason),
    Finish,
    Fail(SessionFailure),
}

impl View for SessionAction {
    type V = ActionView;

    open spec fn view(&self) -> ActionView {
        match *self {
            SessionAction::ReadFrame => ActionView::ReadFrame,
            SessionAction::DecodeHello(bytes) => ActionView::DecodeHello(bytes@),
            SessionAction::DecodeStart(bytes) => ActionView::DecodeStart(bytes@),
            SessionAction::SendHello(hello) => ActionView::SendHello(hello@),
            SessionAction::SendError(error) => ActionView::SendError(error@),
            SessionAction::SendFrame(frame) => ActionView::SendFrame(frame@),
            SessionAction::Spawn { cwd, size } => ActionView::Spawn {
                cwd: opt_owned_text(cwd),
                size,
            },
            SessionAction::Wait { read_client } => ActionView::Wait { read_client },
            SessionAction::WriteInput(bytes) => ActionView::WriteInput(bytes@),
            SessionAction::Resize(size) => ActionView::Resize(size),
            SessionAction::Shutdown(reason) => ActionView::Shutdown(reason),
            SessionAction::Finish => ActionView::Finish,
            SessionAction::Fail(failure) => ActionView::Fail(failure),
        }
    }
}

/// What a refused client is told.
pub enum Refusal {
    UnsupportedPeer,
    ExpectedHello,
    InvalidHello,
    UnsupportedVersion,
    ExpectedStart,
    InvalidStart,
    Size(InvalidSize),
    SpawnFailed(Seq<char>),
    SpawnAborted,
    UnexpectedFrame,
}

/// The error payload of a refusal.
pub open spec fn told(refusal: Refusal) -> ErrorView {
    match refusal {
        Refusal::UnsupportedPeer => ErrorView {
            code: "unsupported_peer"@,
            message: "unsupported terminal peer"@,
        },
        Refusal::ExpectedHello => ErrorView {
            code: "expected_hello"@,
            message: "expected hello frame"@,
        },
        Refusal::InvalidHello => ErrorView {
            code: "invalid_hello"@,
            message: "invalid hello payload"@,
        },
        Refusal::UnsupportedVersion => ErrorView {
            code: "unsupported_version"@,
            message: "terminal protocol version is unsupported"@,
        },
        Refusal::ExpectedStart => ErrorView {
            code: "expected_start"@,
            message: "expected start frame"@,
        },
        Refusal::InvalidStart => ErrorView {
            code: "invalid_start"@,
            message: "invalid start payload"@,
        },
        Refusal::Size(invalid) => ErrorView { code: "invalid_size"@, message: invalid.words() },
        Refusal::SpawnFailed(why) => ErrorView {
            code: "spawn_failed"@,
            message: "Droid PTY failed to start: "@ + why,
        },
        Refusal::SpawnAborted => ErrorView {
            code: "spawn_failed"@,
            message: "Droid PTY spawn task failed"@,
        },
        Refusal::UnexpectedFrame => ErrorView {
            code: "unexpected_frame"@,
            message: "unexpected client terminal frame"@,
        },
    }
}

/// A refusal after which the session fails.
pub open spec fn refuse(refusal: Refusal, failure: SessionFailure) -> (SessionPhase, ActionView) {
    (
        SessionPhase::Refusing { failure, peer_known: !(refusal is UnsupportedPeer) },
        ActionView::SendError(told(refusal)),
    )
}

/// Waiting for the next thing to happen.
pub open spec fn wait(run: RunState) -> (SessionPhase, ActionView) {
    (SessionPhase::Waiting(run), ActionView::Wait { read_client: !run.close_requested })
}

/// The frame that reports an exit code.
pub open spec fn exit_frame_view(code: i32) -> FrameView {
    FrameView { kind: TerminalFrameKind::Exit, payload: exit_bytes(code) }
}

/// Reporting the exit code, as the last thing of the session.
pub open spec fn leave_with(code: i32) -> (SessionPhase, ActionView) {
    (SessionPhase::Leaving, ActionView::SendFrame(exit_frame_view(code)))
}

/// A live session fails: its terminal is shut down.
pub open spec fn clean_up(failure: SessionFailure) -> (SessionPhase, ActionView) {
    (SessionPhase::CleaningUp(failure), ActionView::Shutdown(ShutdownReason::StreamError))
}

/// Whether `event` can happen in `phase`.
pub open spec fn accepts(phase: SessionPhase, event: EventView) -> bool {
    match phase {
        SessionPhase::AwaitingHello => event is Frame || event is ReadFailed,
        SessionPhase::DecodingHello => event is Hello || event is Undecodable,
        SessionPhase::SendingHello => event is Done || event is Failed,
        SessionPhase::AwaitingStart => event is Frame || event is ReadFailed,
        SessionPhase::DecodingStart => event is Start || event is Undecodable,
        SessionPhase::Spawning => event is Spawned || event is SpawnFailed || event is SpawnAborted,
        SessionPhase::Waiting(run) => event is Terminal || event is TerminalGone || (
        !run.close_requested && (event is Frame || event is ReadFailed)),
        SessionPhase::Acting(_) => event is Done || event is Failed,
        SessionPhase::Leaving => event is Done || event is Failed,
        SessionPhase::Refusing { .. } => event is Done || event is Failed,
        SessionPhase::CleaningUp(_) => event is Done || event is Failed,
        SessionPhase::Ended => false,
    }
}

/// What a client frame leads to in a live session.
pub open spec fn on_client_frame(run: RunState, frame: FrameView) -> (SessionPhase, ActionView) {
    match frame.kind {
        TerminalFrameKind::Input => (
            SessionPhase::Acting(run),
            ActionView::WriteInput(frame.payload),
        ),
        TerminalFrameKind::Resize => if frame.payload.len() != 4 {
            clean_up(SessionFailure::Wire(TerminalWireError::Decode))
        } else if !resize_value(frame.payload).valid() {
            clean_up(SessionFailure::Size(InvalidSize { size: resize_value(frame.payload) }))
        } else {
            (SessionPhase::Acting(run), ActionView::Resize(resize_value(frame.payload)))
        },
        TerminalFrameKind::Close => (
            SessionPhase::Acting(RunState { close_requested: true, ..run }),
            ActionView::Shutdown(ShutdownReason::ClientClose),
        ),
        _ => (
            SessionPhase::Acting(run),
            ActionView::SendError(told(Refusal::UnexpectedFrame)),
        ),
    }
}

/// What a terminal event leads to in a live session. The exit code is reported
/// once the terminal's output has been forwarded to its end.
pub open spec fn on_terminal_event(run: RunState, event: TerminalEventView) -> (
    SessionPhase,
    ActionView,
) {
    match event {
        TerminalEventView::Output(bytes) => (
            SessionPhase::Acting(run),
            ActionView::SendFrame(FrameView { kind: TerminalFrameKind::Output, payload: bytes }),
        ),
        TerminalEventView::OutputClosed => match run.pending_exit {
            Some(code) => leave_with(code),
            None => wait(RunState { output_closed: true, ..run }),
        },
        TerminalEventView::Exit(code) => if run.output_closed {
            leave_with(code)
        } else {
            wait(RunState { pending_exit: Some(code), ..run })
        },
    }
}

/// Where `event` leads from `phase`, and what is to be done.
pub open spec fn next(phase: SessionPhase, event: EventView) -> (SessionPhase, ActionView) {
    match (phase, event) {
        (SessionPhase::AwaitingHello, EventView::ReadFailed(e)) => refuse(
            Refusal::UnsupportedPeer,
            SessionFailure::Wire(e),
        ),
        (SessionPhase::AwaitingHello, EventView::Frame(frame)) => if frame.kind
            == TerminalFrameKind::Hello {
            (SessionPhase::DecodingHello, ActionView::DecodeHello(frame.payload))
        } else {
            refuse(Refusal::ExpectedHello, SessionFailure::ExpectedHello)
        },
        (SessionPhase::DecodingHello, EventView::Undecodable) => refuse(
            Refusal::InvalidHello,
            SessionFailure::Wire(TerminalWireError::Decode),
        ),
        (SessionPhase::DecodingHello, EventView::Hello(hello)) => if speaks_version(hello) {
            (SessionPhase::SendingHello, ActionView::SendHello(hello_reply()))
        } else {
            refuse(Refusal::UnsupportedVersion, SessionFailure::UnsupportedVersion)
        },
        (SessionPhase::SendingHello, EventView::Done) => (
            SessionPhase::AwaitingStart,
            ActionView::ReadFrame,
        ),
        (SessionPhase::SendingHello, EventView::Failed) => (
            SessionPhase::Ended,
            ActionView::Fail(SessionFailure::Outside),
        ),
        (SessionPhase::AwaitingStart, EventView::ReadFailed(e)) => (
            SessionPhase::Ended,
            ActionView::Fail(SessionFailure::Wire(e)),
        ),
        (SessionPhase::AwaitingStart, EventView::Frame(frame)) => if frame.kind
            == TerminalFrameKind::Start {
            (SessionPhase::DecodingStart, ActionView::DecodeStart(frame.payload))
        } else {
            refuse(Refusal::ExpectedStart, SessionFailure::ExpectedStart)
        },
        (SessionPhase::DecodingStart, EventView::Undecodable) => refuse(
            Refusal::InvalidStart,
            SessionFailure::Wire(TerminalWireError::Decode),
        ),
        (SessionPhase::DecodingStart, EventView::Start(start)) => {
            let size = TerminalSize { cols: start.cols, rows: start.rows };
            if size.valid() {
                (SessionPhase::Spawning, ActionView::Spawn { cwd: start.cwd, size })
            } else {
                refuse(
                    Refusal::Size(InvalidSize { size }),
                    SessionFailure::Size(InvalidSize { size }),
                )
            }
        },
        (SessionPhase::Spawning, EventView::Spawned) => wait(fresh_run()),
        (SessionPhase::Spawning, EventView::SpawnFailed(why)) => refuse(
            Refusal::SpawnFailed(why),
            SessionFailure::Outside,
        ),
        (SessionPhase::Spawning, EventView::SpawnAborted) => refuse(
            Refusal::SpawnAborted,
            SessionFailure::Outside,
        ),
        (SessionPhase::Waiting(_), EventView::ReadFailed(_)) => (
            SessionPhase::Leaving,
            ActionView::Shutdown(ShutdownReason::ClientDisconnect),
        ),
        (SessionPhase::Waiting(run), EventView::Frame(frame)) => on_client_frame(run, frame),
        (SessionPhase::Waiting(run), EventView::Terminal(event)) => on_terminal_event(run, event),
        (SessionPhase::Waiting(run), EventView::TerminalGone) => match run.pending_exit {
            Some(code) => leave_with(code),
            None => (SessionPhase::Ended, ActionView::Finish),
        },
        (SessionPhase::Acting(run), EventView::Done) => wait(run),
        (SessionPhase::Acting(_), _) => clean_up(SessionFailure::Outside),
        (SessionPhase::Leaving, EventView::Done) => (SessionPhase::Ended, ActionView::Finish),
        (SessionPhase::Leaving, _) => clean_up(SessionFailure::Outside),
        (SessionPhase::Refusing { failure, peer_known }, EventView::Failed) => (
            SessionPhase::Ended,
            ActionView::Fail(
                if peer_known {
                    SessionFailure::Outside
                } else {
                    failure
                },
            ),
        ),
        (SessionPhase::Refusing { failure, .. }, _) => (
            SessionPhase::Ended,
            ActionView::Fail(failure),
        ),
        (SessionPhase::CleaningUp(failure), _) => (
            SessionPhase::Ended,
            ActionView::Fail(failure),
        ),
        // What `accepts` leaves out does not happen.
        _ => (SessionPhase::Ended, ActionView::Fail(SessionFailure::Outside)),
    }
}

/// What a session remembers when its terminal has just been spawned.
pub open spec fn fresh_run() -> RunState {
    RunState { close_requested: false, output_closed: false, pending_exit: None }
}

impl SessionFailure {
    /// The failure in words; nothing for one that only the outside knows.
    pub fn message(&self) -> (r: Option<String>)
        ensures
            match *self {
                SessionFailure::Wire(TerminalWireError::Io(e)) => r is Some && exists|own: String|
                    #[trigger]
                    to_string_from_display_ensures::<std::io::Error>(&e, own) && r->0@
                        == WireErrorView::Io.words() + own@,
                SessionFailure::Wire(e) => r is Some && r->0@ == e@.words(),
                SessionFailure::ExpectedHello => r is Some && r->0@
                    == "expected terminal hello frame"@,
                SessionFailure::UnsupportedVersion => r is Some && r->0@
                    == "unsupported terminal protocol version"@,
                SessionFailure::ExpectedStart => r is Some && r->0@
                    == "expected terminal start frame"@,
                SessionFailure::Size(invalid) => r is Some && r->0@ == invalid.words(),
                SessionFailure::Outside => r is None,
            },
    {
        match self {
            SessionFailure::Wire(e) => Some(e.message()),
            SessionFailure::ExpectedHello => Some("expected terminal hello frame".to_owned()),
            SessionFailure::UnsupportedVersion => Some(
                "unsupported terminal protocol version".to_owned(),
            ),
            SessionFailure::ExpectedStart => Some("expected terminal start frame".to_owned()),
            SessionFailure::Size(invalid) => Some(invalid.message()),
            SessionFailure::Outside => None,
        }
    }
}

/// Tells the client why it is refused, and fails with `failure` after that.
fn refuse_with(
    error: ErrorPayload,
    failure: SessionFailure,
    Ghost(refusal): Ghost<Refusal>,
) -> (r: (SessionPhase, SessionAction))
    requires
        error@ == told(refusal),
        !(refusal is UnsupportedPeer),
    ensures
        (r.0, r.1@) == refuse(refusal, failure),
{
    (SessionPhase::Refusing { failure, peer_known: true }, SessionAction::SendError(error))
}

/// Waits for the next thing to happen.
fn wait_in(run: RunState) -> (r: (SessionPhase, SessionAction))
    ensures
        (r.0, r.1@) == wait(run),
{
    (SessionPhase::Waiting(run), SessionAction::Wait { read_client: !run.close_requested })
}

/// Reports the exit code, as the last thing of the session.
fn leave_reporting(code: i32) -> (r: (SessionPhase, SessionAction))
    ensures
        (r.0, r.1@) == leave_with(code),
{
    let bytes: [u8; 4] = exit_payload(code);
    let payload: Vec<u8> = slice_to_vec(&bytes);
    (
        SessionPhase::Leaving,
        SessionAction::SendFrame(TerminalFrame { kind: TerminalFrameKind::Exit, payload }),
    )
}

/// Shuts the terminal down, and fails with `failure` after that.
fn clean_up_after(failure: SessionFailure) -> (r: (SessionPhase, SessionAction))
    ensures
        (r.0, r.1@) == clean_up(failure),
{
    (SessionPhase::CleaningUp(failure), SessionAction::Shutdown(ShutdownReason::StreamError))
}

/// The client's first frame, or the failure to read it.
fn on_first_frame(event: SessionEvent) -> (r: (SessionPhase, SessionAction))
    requires
        accepts(SessionPhase::AwaitingHello, event@),
    ensures
        (r.0, r.1@) == next(SessionPhase::AwaitingHello, event@),
{
    match event {
        SessionEvent::Frame(frame) => {
            if frame.kind == TerminalFrameKind::Hello {
                (SessionPhase::DecodingHello, SessionAction::DecodeHello(frame.payload))
            } else {
                refuse_with(
                    ErrorPayload::new("expected_hello", "expected hello frame"),
                    SessionFailure::ExpectedHello,
                    Ghost(Refusal::ExpectedHello),
                )
            }
        },
        SessionEvent::ReadFailed(e) => (
            SessionPhase::Refusing { failure: SessionFailure::Wire(e), peer_known: false },
            SessionAction::SendError(
                ErrorPayload::new("unsupported_peer", "unsupported terminal peer"),
            ),
        ),
        _ => (SessionPhase::Ended, SessionAction::Fail(SessionFailure::Outside)),
    }
}

/// The client's hello, or the failure to decode it.
fn on_hello(event: SessionEvent) -> (r: (SessionPhase, SessionAction))
    requires
        accepts(SessionPhase::DecodingHello, event@),
    ensures
        (r.0, r.1@) == next(SessionPhase::DecodingHello, event@),
{
    match event {
        SessionEvent::Hello(hello) => {
            if hello.min_version > TERMINAL_PROTOCOL_VERSION || hello.max_version
                < TERMINAL_PROTOCOL_VERSION {
                refuse_with(
                    ErrorPayload::new(
                        "unsupported_version",
                        "terminal protocol version is unsupported",
                    ),
                    SessionFailure::UnsupportedVersion,
                    Ghost(Refusal::UnsupportedVersion),
                )
            } else {
                (SessionPhase::SendingHello, SessionAction::SendHello(server_hello()))
            }
        },
        _ => refuse_with(
            ErrorPayload::new("invalid_hello", "invalid hello payload"),
            SessionFailure::Wire(TerminalWireError::Decode),
            Ghost(Refusal::InvalidHello),
        ),
    }
}

/// The client's second frame, or the failure to read it.
fn on_second_frame(event: SessionEvent) -> (r: (SessionPhase, SessionAction))
    requires
        accepts(SessionPhase::AwaitingStart, event@),
    ensures
        (r.0, r.1@) == next(SessionPhase::AwaitingStart, event@),
{
    match event {
        SessionEvent::Frame(frame) => {
            if frame.kind == TerminalFrameKind::Start {
                (SessionPhase::DecodingStart, SessionAction::DecodeStart(frame.payload))
            } else {
                refuse_with(
                    ErrorPayload::new("expected_start", "expected start frame"),
                    SessionFailure::ExpectedStart,
                    Ghost(Refusal::ExpectedStart),
                )
            }
        },
        SessionEvent::ReadFailed(e) => (
            SessionPhase::Ended,
            SessionAction::Fail(SessionFailure::Wire(e)),
        ),
        _ => (SessionPhase::Ended, SessionAction::Fail(SessionFailure::Outside)),
    }
}

/// The client's start request, or the failure to decode it.
fn on_start(event: SessionEvent) -> (r: (SessionPhase, SessionAction))
    requires
        accepts(SessionPhase::DecodingStart, event@),
    ensures
        (r.0, r.1@) == next(SessionPhase::DecodingStart, event@),
{
    match event {
        SessionEvent::Start(start) => {
            let size = TerminalSize { cols: start.cols, rows: start.rows };
            match validate_size(size) {
                Ok(()) => (
                    SessionPhase::Spawning,
                    SessionAction::Spawn { cwd: start.cwd, size },
                ),
                Err(invalid) => {
                    let words: String = invalid.message();
                    refuse_with(
                        ErrorPayload::new("invalid_size", words.as_str()),
                        SessionFailure::Size(invalid),
                        Ghost(Refusal::Size(invalid)),
                    )
                },
            }
        },
        _ => refuse_with(
            ErrorPayload::new("invalid_start", "invalid start payload"),
            SessionFailure::Wire(TerminalWireError::Decode),
            Ghost(Refusal::InvalidStart),
        ),
    }
}

/// What came of spawning the terminal.
fn on_spawn(event: SessionEvent) -> (r: (SessionPhase, SessionAction))
    requires
        accepts(SessionPhase::Spawning, event@),
    ensures
        (r.0, r.1@) == next(SessionPhase::Spawning, event@),
{
    match event {
        SessionEvent::Spawned => wait_in(
            RunState { close_requested: false, output_closed: false, pending_exit: None },
        ),
        SessionEvent::SpawnFailed(why) => {
            let mut words: String = "Droid PTY failed to start: ".to_owned();
            words.append(why.as_str());
            refuse_with(
                ErrorPayload::new("spawn_failed", words.as_str()),
                SessionFailure::Outside,
                Ghost(Refusal::SpawnFailed(why@)),
            )
        },
        _ => refuse_with(
            ErrorPayload::new("spawn_failed", "Droid PTY spawn task failed"),
            SessionFailure::Outside,
            Ghost(Refusal::SpawnAborted),
        ),
    }
}

/// A client frame in a live session.
fn handle_client_frame(run: RunState, frame: TerminalFrame) -> (r: (SessionPhase, SessionAction))
    ensures
        (r.0, r.1@) == on_client_frame(run, frame@),
{
    match frame.kind {
        TerminalFrameKind::Input => (
            SessionPhase::Acting(run),
            SessionAction::WriteInput(frame.payload),
        ),
        TerminalFrameKind::Resize => match decode_resize_payload(frame.payload.as_slice()) {
            Ok(size) => match validate_size(size) {
                Ok(()) => (SessionPhase::Acting(run), SessionAction::Resize(size)),
                Err(invalid) => clean_up_after(SessionFailure::Size(invalid)),
            },
            Err(e) => clean_up_after(SessionFailure::Wire(e)),
        },
        TerminalFrameKind::Close => (
            SessionPhase::Acting(RunState { close_requested: true, ..run }),
            SessionAction::Shutdown(ShutdownReason::ClientClose),
        ),
        _ => (
            SessionPhase::Acting(run),
            SessionAction::SendError(
                ErrorPayload::new("unexpected_frame", "unexpected client terminal frame"),
            ),
        ),
    }
}

/// A terminal event in a live session.
fn handle_terminal_event(run: RunState, event: TerminalEvent) -> (r: (SessionPhase, SessionAction))
    ensures
        (r.0, r.1@) == on_terminal_event(run, event@),
{
    match event {
        TerminalEvent::Output(bytes) => (
            SessionPhase::Acting(run),
            SessionAction::SendFrame(
                TerminalFrame { kind: TerminalFrameKind::Output, payload: bytes },
            ),
        ),
        TerminalEvent::OutputClosed => match run.pending_exit {
            Some(code) => leave_reporting(code),
            None => wait_in(RunState { output_closed: true, ..run }),
        },
        TerminalEvent::Exit(code) => if run.output_closed {
            leave_reporting(code)
        } else {
            wait_in(RunState { pending_exit: Some(code), ..run })
        },
    }
}

/// Whatever happens while a live session waits.
fn on_live_event(run: RunState, event: SessionEvent) -> (r: (SessionPhase, SessionAction))
    requires
        accepts(SessionPhase::Waiting(run), event@),
    ensures
        (r.0, r.1@) == next(SessionPhase::Waiting(run), event@),
{
    match event {
        SessionEvent::Frame(frame) => handle_client_frame(run, frame),
        SessionEvent::Terminal(event) => handle_terminal_event(run, event),
        SessionEvent::TerminalGone => match run.pending_exit {
            Some(code) => leave_reporting(code),
            None => (SessionPhase::Ended, SessionAction::Finish),
        },
        _ => (
            SessionPhase::Leaving,
            SessionAction::Shutdown(ShutdownReason::ClientDisconnect),
        ),
    }
}

impl SessionPhase {
    /// A session on a stream that nothing has been read from yet.
    pub fn begin() -> (r: (SessionPhase, SessionAction))
        ensures
            r.0 is AwaitingHello,
            r.1@ == ActionView::ReadFrame,
    {
        (SessionPhase::AwaitingHello, SessionAction::ReadFrame)
    }

    /// Whether `event` can happen in this phase.
    pub fn can_happen(&self, event: &SessionEvent) -> (r: bool)
        ensures
            r == accepts(*self, event@),
    {
        match self {
            SessionPhase::AwaitingHello | SessionPhase::AwaitingStart => matches!(
                event,
                SessionEvent::Frame(_) | SessionEvent::ReadFailed(_)
            ),
            SessionPhase::DecodingHello => matches!(
                event,
                SessionEvent::Hello(_) | SessionEvent::Undecodable
            ),
            SessionPhase::DecodingStart => matches!(
                event,
                SessionEvent::Start(_) | SessionEvent::Undecodable
            ),
            SessionPhase::Spawning => matches!(
                event,
                SessionEvent::Spawned | SessionEvent::SpawnFailed(_) | SessionEvent::SpawnAborted
            ),
            SessionPhase::Waiting(run) => match event {
                SessionEvent::Terminal(_) | SessionEvent::TerminalGone => true,
                SessionEvent::Frame(_) | SessionEvent::ReadFailed(_) => !run.close_requested,
                _ => false,
            },
            SessionPhase::SendingHello | SessionPhase::Acting(_) | SessionPhase::Leaving
            | SessionPhase::Refusing { .. } | SessionPhase::CleaningUp(_) => matches!(
                event,
                SessionEvent::Done | SessionEvent::Failed
            ),
            SessionPhase::Ended => false,
        }
    }

    /// Takes what happened, and says where the session stands now and what to
    /// do next.
    pub fn step(self, event: SessionEvent) -> (r: (SessionPhase, SessionAction))
        requires
            accepts(self, event@),
        ensures
            (r.0, r.1@) == next(self, event@),
    {
        let done: bool = matches!(event, SessionEvent::Done);
        match self {
            SessionPhase::AwaitingHello => on_first_frame(event),
            SessionPhase::DecodingHello => on_hello(event),
            SessionPhase::SendingHello => if done {
                (SessionPhase::AwaitingStart, SessionAction::ReadFrame)
            } else {
                (SessionPhase::Ended, SessionAction::Fail(SessionFailure::Outside))
            },
            SessionPhase::AwaitingStart => on_second_frame(event),
            SessionPhase::DecodingStart => on_start(event),
            SessionPhase::Spawning => on_spawn(event),
            SessionPhase::Waiting(run) => on_live_event(run, event),
            SessionPhase::Acting(run) => if done {
                wait_in(run)
            } else {
                clean_up_after(SessionFailure::Outside)
            },
            SessionPhase::Leaving => if done {
                (SessionPhase::Ended, SessionAction::Finish)
            } else {
                clean_up_after(SessionFailure::Outside)
            },
            SessionPhase::Refusing { failure, peer_known } => if done || !peer_known {
                (SessionPhase::Ended, SessionAction::Fail(failure))
            } else {
                (SessionPhase::Ended, SessionAction::Fail(SessionFailure::Outside))
            },
            SessionPhase::CleaningUp(failure) => (
                SessionPhase::Ended,
                SessionAction::Fail(failure),
            ),
            SessionPhase::Ended => (
                SessionPhase::Ended,
                SessionAction::Fail(SessionFailure::Outside),
            ),
        }
    }
}

/// A hello frame of this encoded payload.
pub fn hello_frame(payload: Vec<u8>) -> (r: TerminalFrame)
    ensures
        r@ == (FrameView { kind: TerminalFrameKind::Hello, payload: payload@ }),
        r.kind is Hello,
        r.payload@ == payload@,
{
    TerminalFrame { kind: TerminalFrameKind::Hello, payload }
}

/// An error frame of this encoded payload.
pub fn error_frame(payload: Vec<u8>) -> (r: TerminalFrame)
    ensures
        r@ == (FrameView { kind: TerminalFrameKind::Error, payload: payload@ }),
        r.kind is Error,
        r.payload@ == payload@,
{
    TerminalFrame { kind: TerminalFrameKind::Error, payload }
}

} // verus!
