//! What each thing that happens in a session leads to, told by what has happened
//! in it and what was last asked for, and what follows of whole sessions.
use crate::error::TerminalWireError;
use crate::payload::ErrorView;
use crate::payload::resize_value;
use crate::payload::InvalidSize;
use crate::payload::TerminalSize;
use crate::session::ActionView;
use crate::session::EventView;
use crate::session::SessionAction;
use crate::session::SessionEvent;
use crate::session::SessionFailure;
use crate::session::SessionPhase;
use crate::session::ShutdownReason;
use crate::session::TerminalEvent;
use crate::session::TerminalEventView;
use crate::session_laws::action_after;
use crate::session_laws::can_run;
use crate::session_laws::is_frame;
use crate::session_laws::last_exit;
use crate::session_laws::output_ended;
use crate::session_laws::phase_after;
use crate::text::decimal;
use crate::wire::FrameView;
use crate::wire::TerminalFrameKind;
use vstd::prelude::*;

verus! {

/// `event` is an outcome of `action`.
pub open spec fn answers(action: ActionView, event: EventView) -> bool {
    match action {
        ActionView::ReadFrame => event is Frame || event is ReadFailed,
        ActionView::DecodeHello(_) => event is Hello || event is Undecodable,
        ActionView::DecodeStart(_) => event is Start || event is Undecodable,
        ActionView::Spawn { .. } => event is Spawned || event is SpawnFailed || event
            is SpawnAborted,
        ActionView::Wait { read_client } => event is Terminal || event is TerminalGone || (
        read_client && (event is Frame || event is ReadFailed)),
        ActionView::Finish => false,
        ActionView::Fail(_) => false,
        _ => event is Done || event is Failed,
    }
}

/// The client asked its live session to close. The first six events are the
/// handshake and the spawning.
pub open spec fn client_closed(events: Seq<EventView>) -> bool
    decreases events.len(),
{
    events.len() > 6 && (is_frame(events.last(), TerminalFrameKind::Close) || client_closed(
        events.drop_last(),
    ))
}

/// A frame could not be read from the client of a live session.
pub open spec fn client_lost(events: Seq<EventView>) -> bool
    decreases events.len(),
{
    events.len() > 6 && (events.last() is ReadFailed || client_lost(events.drop_last()))
}

/// The client was sent an exit frame.
pub open spec fn exit_sent(events: Seq<EventView>) -> bool
    decreases events.len(),
{
    events.len() > 0 && ((action_after(events) matches ActionView::SendFrame(frame) && frame.kind
        is Exit) || exit_sent(events.drop_last()))
}

/// The number that two bytes hold, the high one first.
pub open spec fn two_bytes(hi: u8, lo: u8) -> int {
    hi * 256 + lo
}

/// The frame reports this exit code: four bytes of two's complement, the high
/// one first.
pub open spec fn reports_code(frame: FrameView, code: i32) -> bool {
    &&& frame.kind is Exit
    &&& frame.payload.len() == 4
    &&& two_bytes(frame.payload[0], frame.payload[1]) * 0x10000 + two_bytes(
        frame.payload[2],
        frame.payload[3],
    ) == (if code < 0 {
        code + 0x1_0000_0000
    } else {
        code as int
    })
}

/// An error frame of this code and message.
pub open spec fn tells(action: ActionView, code: Seq<char>, message: Seq<char>) -> bool {
    action matches ActionView::SendError(error) && error.code == code && error.message == message
}

/// How the phase of a session goes with what it asked for and what has happened.
proof fn phase_fits(events: Seq<EventView>)
    requires
        can_run(events),
    ensures
        match phase_after(events) {
            SessionPhase::AwaitingHello => events.len() == 0 && action_after(events) is ReadFrame,
            SessionPhase::DecodingHello => events.len() == 1 && action_after(events)
                is DecodeHello,
            SessionPhase::SendingHello => events.len() == 2 && action_after(events) is SendHello,
            SessionPhase::AwaitingStart => events.len() == 3 && action_after(events) is ReadFrame,
            SessionPhase::DecodingStart => events.len() == 4 && action_after(events)
                is DecodeStart,
            SessionPhase::Spawning => events.len() == 5 && action_after(events) is Spawn,
            SessionPhase::Waiting(run) => events.len() >= 6 && action_after(events) == (
            ActionView::Wait { read_client: !run.close_requested }) && run.close_requested
                == client_closed(events) && run.pending_exit == last_exit(events)
                && run.output_closed == output_ended(events),
            SessionPhase::Acting(run) => events.len() >= 7 && run.close_requested == client_closed(
                events,
            ) && run.pending_exit == last_exit(events) && run.output_closed == output_ended(events)
                && match action_after(events) {
                ActionView::WriteInput(_) => true,
                ActionView::Resize(_) => true,
                ActionView::Shutdown(reason) => reason is ClientClose,
                ActionView::SendError(_) => true,
                ActionView::SendFrame(frame) => frame.kind is Output,
                _ => false,
            },
            SessionPhase::Leaving => events.len() >= 7 && match action_after(events) {
                ActionView::Shutdown(reason) => reason is ClientDisconnect && client_lost(events),
                ActionView::SendFrame(frame) => frame.kind is Exit && exit_sent(events),
                _ => false,
            },
            SessionPhase::Refusing { .. } => 1 <= events.len() <= 6 && action_after(events)
                is SendError,
            SessionPhase::CleaningUp(_) => events.len() >= 7 && action_after(events)
                == ActionView::Shutdown(ShutdownReason::StreamError),
            SessionPhase::Ended => action_after(events) is Finish || action_after(events) is Fail,
        },
        events.len() <= 5 ==> last_exit(events) is None && !output_ended(events) && !client_closed(
            events,
        ),
        phase_after(events) is Spawning ==> last_exit(events) is None && !output_ended(events),
    decreases events.len(),
{
    if events.len() > 0 {
        phase_fits(events.drop_last());
        assert(events.drop_last().len() == events.len() - 1);
    }
}

/// What can happen next is an outcome of what was just asked for, and every such
/// outcome can happen.
pub proof fn every_outcome_can_happen(events: Seq<EventView>, event: EventView)
    requires
        can_run(events),
    ensures
        can_run(events.push(event)) <==> answers(action_after(events), event),
{
    phase_fits(events);
    assert(events.push(event).drop_last() =~= events);
}

/// The first frame of a client must be a hello. Any other is refused, and so is a
/// peer whose first frame cannot be read.
pub proof fn session_opens_with_a_hello(event: EventView)
    requires
        can_run(seq![event]),
    ensures
        match event {
            EventView::Frame(frame) => if frame.kind is Hello {
                action_after(seq![event]) == ActionView::DecodeHello(frame.payload)
            } else {
                tells(action_after(seq![event]), "expected_hello"@, "expected hello frame"@)
            },
            EventView::ReadFailed(_) => tells(
                action_after(seq![event]),
                "unsupported_peer"@,
                "unsupported terminal peer"@,
            ),
            _ => false,
        },
{
    assert(seq![event].drop_last() =~= seq![]);
}

/// A hello that covers version 1 is answered with version 1 and the name of every
/// frame kind. Any other hello is refused, and so is one that cannot be decoded.
pub proof fn hello_is_answered(events: Seq<EventView>, event: EventView)
    requires
        can_run(events.push(event)),
        action_after(events) is DecodeHello,
    ensures
        match event {
            EventView::Hello(hello) => if hello.min_version <= 1 && hello.max_version >= 1 {
                action_after(events.push(event)) matches ActionView::SendHello(reply)
                    && reply.min_version == 1 && reply.max_version == 1 && reply.features == seq![
                    "hello"@,
                    "start"@,
                    "output"@,
                    "input"@,
                    "resize"@,
                    "close"@,
                    "exit"@,
                    "error"@,
                ]
            } else {
                tells(
                    action_after(events.push(event)),
                    "unsupported_version"@,
                    "terminal protocol version is unsupported"@,
                )
            },
            EventView::Undecodable => tells(
                action_after(events.push(event)),
                "invalid_hello"@,
                "invalid hello payload"@,
            ),
            _ => false,
        },
{
    assert(events.push(event).drop_last() =~= events);
    phase_fits(events);
}

/// When its hello has been answered, the client's next frame is read; it must be
/// a start request. A client that is lost before it has sent one is told nothing.
pub proof fn start_request_follows_hello(
    events: Seq<EventView>,
    answered: EventView,
    event: EventView,
)
    requires
        can_run(events.push(answered).push(event)),
        action_after(events) is SendHello,
    ensures
        answered is Done,
        action_after(events.push(answered)) is ReadFrame,
        match event {
            EventView::Frame(frame) => if frame.kind is Start {
                action_after(events.push(answered).push(event)) == ActionView::DecodeStart(
                    frame.payload,
                )
            } else {
                tells(
                    action_after(events.push(answered).push(event)),
                    "expected_start"@,
                    "expected start frame"@,
                )
            },
            EventView::ReadFailed(e) => action_after(events.push(answered).push(event))
                == ActionView::Fail(SessionFailure::Wire(e)),
            _ => false,
        },
{
    assert(events.push(answered).push(event).drop_last() =~= events.push(answered));
    assert(events.push(answered).drop_last() =~= events);
    assert(can_run(events.push(answered)));
    phase_fits(events);
}

/// A hello that cannot be sent ends the session.
pub proof fn unsent_hello_fails_session(events: Seq<EventView>)
    requires
        can_run(events),
        action_after(events) is SendHello,
    ensures
        action_after(events.push(EventView::Failed)) == ActionView::Fail(SessionFailure::Outside),
{
    assert(events.push(EventView::Failed).drop_last() =~= events);
    phase_fits(events);
}

/// A start request for a terminal with columns and rows spawns one of that many
/// columns and rows, in the directory that was asked for if one was. A request
/// without columns or without rows is refused, and so is one that cannot be
/// decoded.
pub proof fn start_request_is_granted(events: Seq<EventView>, event: EventView)
    requires
        can_run(events.push(event)),
        action_after(events) is DecodeStart,
    ensures
        match event {
            EventView::Start(start) => if start.cols > 0 && start.rows > 0 {
                action_after(events.push(event)) matches ActionView::Spawn { cwd, size } && cwd
                    == start.cwd && size.cols == start.cols && size.rows == start.rows
            } else {
                tells(
                    action_after(events.push(event)),
                    "invalid_size"@,
                    "terminal size must be non-zero, got "@ + decimal(start.cols as nat) + "x"@
                        + decimal(start.rows as nat),
                )
            },
            EventView::Undecodable => tells(
                action_after(events.push(event)),
                "invalid_start"@,
                "invalid start payload"@,
            ),
            _ => false,
        },
{
    assert(events.push(event).drop_last() =~= events);
    phase_fits(events);
}

/// A terminal that was spawned is waited for together with its client. A client
/// whose terminal was not spawned is told why.
pub proof fn spawned_terminal_is_served(events: Seq<EventView>, event: EventView)
    requires
        can_run(events.push(event)),
        action_after(events) is Spawn,
    ensures
        match event {
            EventView::Spawned => action_after(events.push(event)) == (ActionView::Wait {
                read_client: true,
            }),
            EventView::SpawnFailed(why) => tells(
                action_after(events.push(event)),
                "spawn_failed"@,
                "Droid PTY failed to start: "@ + why,
            ),
            EventView::SpawnAborted => tells(
                action_after(events.push(event)),
                "spawn_failed"@,
                "Droid PTY spawn task failed"@,
            ),
            _ => false,
        },
{
    assert(events.push(event).drop_last() =~= events);
    phase_fits(events);
}

/// The failure of a session that was refused after `events`.
pub open spec fn refused_for(events: Seq<EventView>) -> SessionFailure {
    match events.last() {
        EventView::ReadFailed(e) => SessionFailure::Wire(e),
        EventView::Frame(_) => if events.len() == 1 {
            SessionFailure::ExpectedHello
        } else {
            SessionFailure::ExpectedStart
        },
        EventView::Undecodable => SessionFailure::Wire(TerminalWireError::Decode),
        EventView::Hello(_) => SessionFailure::UnsupportedVersion,
        EventView::Start(start) => SessionFailure::Size(
            InvalidSize { size: TerminalSize { cols: start.cols, rows: start.rows } },
        ),
        _ => SessionFailure::Outside,
    }
}

/// A client that is refused before its terminal is live is told so, and then the
/// session fails for what it was refused for; if the client could not be told, it
/// fails for that. A peer whose first frame could not be read is the exception:
/// its session fails for that either way.
pub proof fn refusal_fails_session(events: Seq<EventView>, event: EventView)
    requires
        can_run(events.push(event)),
        events.len() <= 6,
        action_after(events) is SendError,
    ensures
        action_after(events.push(event)) == ActionView::Fail(
            if event is Done || events.last() is ReadFailed {
                refused_for(events)
            } else {
                SessionFailure::Outside
            },
        ),
{
    assert(events.push(event).drop_last() =~= events);
    assert(can_run(events));
    phase_fits(events);
    assert(events.len() > 0);
    phase_fits(events.drop_last());
}

/// Whenever a live session waits, it listens to its terminal, and to its client
/// until the client has asked to close.
pub proof fn waiting_session_hears_its_client(events: Seq<EventView>)
    requires
        can_run(events),
    ensures
        phase_after(events) is Waiting <==> action_after(events) is Wait,
        phase_after(events) is Waiting ==> action_after(events) == (ActionView::Wait {
            read_client: !client_closed(events),
        }),
        phase_after(events) is Waiting ==> phase_after(events)->Waiting_0.close_requested
            == client_closed(events),
{
    phase_fits(events);
}

/// What the terminal reports goes to the client: its output at once, and its exit
/// code when both the exit and the end of the output have been reported, in
/// whichever order. Until then the session goes on waiting.
pub proof fn terminal_report_is_passed_on(events: Seq<EventView>, report: TerminalEventView)
    requires
        can_run(events),
        action_after(events) is Wait,
    ensures
        ({
            let after = events.push(EventView::Terminal(report));
            &&& can_run(after)
            &&& match report {
                TerminalEventView::Output(bytes) => action_after(
                    after,
                ) matches ActionView::SendFrame(frame) && frame.kind is Output && frame.payload
                    == bytes,
                _ => if output_ended(after) && last_exit(after) is Some {
                    action_after(after) matches ActionView::SendFrame(frame) && reports_code(
                        frame,
                        last_exit(after)->0,
                    )
                } else {
                    action_after(after) == (ActionView::Wait { read_client: !client_closed(events) })
                },
            }
        }),
{
    let after = events.push(EventView::Terminal(report));
    assert(after.drop_last() =~= events);
    phase_fits(events);
    phase_fits(after);
    remembered_separately(events);
}

/// A session that still waits has not seen both the exit and the end of the
/// output.
proof fn remembered_separately(events: Seq<EventView>)
    requires
        can_run(events),
    ensures
        phase_after(events) is Waiting || phase_after(events) is Acting ==> !(output_ended(events)
            && last_exit(events) is Some),
    decreases events.len(),
{
    if events.len() > 0 {
        remembered_separately(events.drop_last());
        phase_fits(events.drop_last());
        phase_fits(events);
    }
}

/// A terminal whose side reports nothing more ends the session: with its exit code
/// if it reported one, and otherwise at once.
pub proof fn gone_terminal_ends_session(events: Seq<EventView>)
    requires
        can_run(events),
        action_after(events) is Wait,
    ensures
        ({
            let after = events.push(EventView::TerminalGone);
            &&& can_run(after)
            &&& match last_exit(events) {
                Some(code) => action_after(after) matches ActionView::SendFrame(frame)
                    && reports_code(frame, code),
                None => action_after(after) is Finish,
            }
        }),
{
    let after = events.push(EventView::TerminalGone);
    assert(after.drop_last() =~= events);
    phase_fits(events);
}

/// What a client asks of its live terminal is done: its input is written, its
/// resizes are made, a close shuts the terminal down, and its going away does too.
/// A resize to no columns or no rows, or one that is not four bytes long, fails the
/// session; any other frame is answered with an error.
pub proof fn client_is_served(events: Seq<EventView>, event: EventView)
    requires
        can_run(events),
        action_after(events) == (ActionView::Wait { read_client: true }),
        event is Frame || event is ReadFailed,
    ensures
        can_run(events.push(event)),
        match event {
            EventView::Frame(frame) => match frame.kind {
                TerminalFrameKind::Input => action_after(events.push(event))
                    == ActionView::WriteInput(frame.payload),
                TerminalFrameKind::Resize => if is_proper_resize(frame.payload) {
                    action_after(events.push(event)) matches ActionView::Resize(size) && size.cols
                        == two_bytes(frame.payload[0], frame.payload[1]) && size.rows == two_bytes(
                        frame.payload[2],
                        frame.payload[3],
                    )
                } else {
                    action_after(events.push(event)) == ActionView::Shutdown(
                        ShutdownReason::StreamError,
                    )
                },
                TerminalFrameKind::Close => action_after(events.push(event))
                    == ActionView::Shutdown(ShutdownReason::ClientClose),
                _ => tells(
                    action_after(events.push(event)),
                    "unexpected_frame"@,
                    "unexpected client terminal frame"@,
                ),
            },
            _ => action_after(events.push(event)) == ActionView::Shutdown(
                ShutdownReason::ClientDisconnect,
            ),
        },
{
    assert(events.push(event).drop_last() =~= events);
    phase_fits(events);
    if let EventView::Frame(frame) = event {
        if frame.payload.len() == 4 {
            resize_bytes_are_read(frame.payload);
        }
    }
}

/// The columns and the rows of a resize payload.
proof fn resize_bytes_are_read(payload: Seq<u8>)
    requires
        payload.len() == 4,
    ensures
        resize_value(payload).cols == two_bytes(payload[0], payload[1]),
        resize_value(payload).rows == two_bytes(payload[2], payload[3]),
{
}

/// Four bytes that give a number of columns and a number of rows, neither zero.
pub open spec fn is_proper_resize(payload: Seq<u8>) -> bool {
    &&& payload.len() == 4
    &&& two_bytes(payload[0], payload[1]) > 0
    &&& two_bytes(payload[2], payload[3]) > 0
}

/// What has been done for a live session is done with: it waits again, listening
/// to its client unless that asked to close. What was done last, the exit frame or
/// the shutdown for a lost client, finishes it. What could not be done shuts the
/// terminal down.
pub proof fn live_session_goes_on(events: Seq<EventView>, event: EventView)
    requires
        can_run(events.push(event)),
        events.len() > 6,
        !(action_after(events) is Wait),
        action_after(events) != ActionView::Shutdown(ShutdownReason::StreamError),
    ensures
        event is Done || event is Failed,
        event is Failed ==> action_after(events.push(event)) == ActionView::Shutdown(
            ShutdownReason::StreamError,
        ),
        event is Done ==> if (action_after(events) matches ActionView::SendFrame(frame)
            && frame.kind is Exit) || action_after(events) == ActionView::Shutdown(
            ShutdownReason::ClientDisconnect,
        ) {
            action_after(events.push(event)) is Finish
        } else {
            action_after(events.push(event)) == (ActionView::Wait {
                read_client: !client_closed(events),
            })
        },
{
    assert(events.push(event).drop_last() =~= events);
    phase_fits(events);
}

/// A live session whose terminal was shut down because it failed ends with what it
/// failed for, however that shutdown went: a malformed resize, a size that no
/// terminal can have, or something that could not be done.
pub proof fn cleaned_up_session_fails(events: Seq<EventView>, event: EventView)
    requires
        can_run(events.push(event)),
        action_after(events) == ActionView::Shutdown(ShutdownReason::StreamError),
    ensures
        action_after(events.push(event)) == ActionView::Fail(
            match events.last() {
                EventView::Frame(frame) => if frame.payload.len() == 4 {
                    SessionFailure::Size(
                        InvalidSize {
                            size: TerminalSize {
                                cols: two_bytes(frame.payload[0], frame.payload[1]) as u16,
                                rows: two_bytes(frame.payload[2], frame.payload[3]) as u16,
                            },
                        },
                    )
                } else {
                    SessionFailure::Wire(TerminalWireError::Decode)
                },
                _ => SessionFailure::Outside,
            },
        ),
{
    assert(events.push(event).drop_last() =~= events);
    assert(can_run(events));
    phase_fits(events);
    assert(events.len() > 0);
    phase_fits(events.drop_last());
    if let EventView::Frame(frame) = events.last() {
        if frame.payload.len() == 4 {
            resize_bytes_are_read(frame.payload);
        }
    }
}

/// A live session ends well only when its client was sent the exit code, its
/// client was lost, or its terminal's side reports nothing more. No session ends
/// well without a terminal.
pub proof fn good_end_has_a_reason(events: Seq<EventView>)
    requires
        can_run(events),
        action_after(events) is Finish,
    ensures
        events.len() > 6,
        exit_sent(events) || client_lost(events) || events.last() is TerminalGone,
{
    phase_fits(events.drop_last());
    phase_fits(events);
}

/// Every handshake that succeeds spawns a terminal: a hello that covers version 1,
/// which could be answered, and a start request with columns and rows, whatever
/// else they say.
pub proof fn good_handshake_spawns(events: Seq<EventView>)
    requires
        can_run(events),
        events.len() == 5,
        is_frame(events[0], TerminalFrameKind::Hello),
        events[1] matches EventView::Hello(hello) && hello.min_version <= 1 <= hello.max_version,
        events[2] is Done,
        is_frame(events[3], TerminalFrameKind::Start),
        events[4] matches EventView::Start(start) && start.cols > 0 && start.rows > 0,
    ensures
        events[4] matches EventView::Start(start) && action_after(events)
            matches ActionView::Spawn { cwd, size } && cwd == start.cwd && size.cols == start.cols
            && size.rows == start.rows,
{
    phase_fits(events.drop_last());
    assert(events.drop_last().push(events.last()) =~= events);
    start_request_is_granted(events.drop_last(), events.last());
}

/// A client is told of an invalid size only if it asked for no columns or no rows.
pub proof fn only_empty_sizes_are_invalid(events: Seq<EventView>, error: ErrorView)
    requires
        can_run(events),
        action_after(events) == ActionView::SendError(error),
        error.code == "invalid_size"@,
    ensures
        events.last() matches EventView::Start(start) && (start.cols == 0 || start.rows == 0),
{
    reveal_strlit("invalid_size");
    reveal_strlit("expected_hello");
    reveal_strlit("unsupported_peer");
    reveal_strlit("unsupported_version");
    reveal_strlit("invalid_hello");
    reveal_strlit("expected_start");
    reveal_strlit("invalid_start");
    reveal_strlit("spawn_failed");
    reveal_strlit("unexpected_frame");
    assert("spawn_failed"@[0] != "invalid_size"@[0]);
    assert("invalid_size"@.len() == 12);
    assert("expected_hello"@.len() == 14 && "expected_start"@.len() == 14);
    assert("unsupported_peer"@.len() == 16 && "unexpected_frame"@.len() == 16);
    assert("invalid_hello"@.len() == 13 && "invalid_start"@.len() == 13);
    assert("unsupported_version"@.len() == 19);
    phase_fits(events.drop_last());
}

/// Why a terminal is shut down has a name of its own.
pub proof fn shutdown_reasons_are_named(reason: ShutdownReason)
    ensures
        reason is ClientDisconnect ==> reason.words() == "client_disconnect"@,
        reason is ClientClose ==> reason.words() == "client_close"@,
        reason is StreamError ==> reason.words() == "stream_error"@,
{
}

/// What happens in a session is seen as what it carries.
pub proof fn events_are_seen_as_they_are(event: SessionEvent)
    ensures
        match event {
            SessionEvent::Frame(frame) => event@ == EventView::Frame(
                FrameView { kind: frame.kind, payload: frame.payload@ },
            ),
            SessionEvent::ReadFailed(e) => event@ == EventView::ReadFailed(e),
            SessionEvent::Hello(hello) => event@ == EventView::Hello(hello@),
            SessionEvent::Start(start) => event@ == EventView::Start(start@),
            SessionEvent::Undecodable => event@ is Undecodable,
            SessionEvent::Spawned => event@ is Spawned,
            SessionEvent::SpawnFailed(why) => event@ == EventView::SpawnFailed(why@),
            SessionEvent::SpawnAborted => event@ is SpawnAborted,
            SessionEvent::Terminal(TerminalEvent::Output(bytes)) => event@ == EventView::Terminal(
                TerminalEventView::Output(bytes@),
            ),
            SessionEvent::Terminal(TerminalEvent::OutputClosed) => event@ == EventView::Terminal(
                TerminalEventView::OutputClosed,
            ),
            SessionEvent::Terminal(TerminalEvent::Exit(code)) => event@ == EventView::Terminal(
                TerminalEventView::Exit(code),
            ),
            SessionEvent::TerminalGone => event@ is TerminalGone,
            SessionEvent::Done => event@ is Done,
            SessionEvent::Failed => event@ is Failed,
        },
{
}

/// What a session asks for is seen as what it carries.
pub proof fn actions_are_seen_as_they_are(action: SessionAction)
    ensures
        match action {
            SessionAction::ReadFrame => action@ is ReadFrame,
            SessionAction::DecodeHello(bytes) => action@ == ActionView::DecodeHello(bytes@),
            SessionAction::DecodeStart(bytes) => action@ == ActionView::DecodeStart(bytes@),
            SessionAction::SendHello(hello) => action@ == ActionView::SendHello(hello@),
            SessionAction::SendError(error) => action@ == ActionView::SendError(
                ErrorView { code: error.code@, message: error.message@ },
            ),
            SessionAction::SendFrame(frame) => action@ == ActionView::SendFrame(
                FrameView { kind: frame.kind, payload: frame.payload@ },
            ),
            SessionAction::Spawn { cwd: Some(dir), size } => action@ == (ActionView::Spawn {
                cwd: Some(dir@),
                size,
            }),
            SessionAction::Spawn { cwd: None, size } => action@ == (ActionView::Spawn {
                cwd: None,
                size,
            }),
            SessionAction::Wait { read_client } => action@ == (ActionView::Wait { read_client }),
            SessionAction::WriteInput(bytes) => action@ == ActionView::WriteInput(bytes@),
            SessionAction::Resize(size) => action@ == ActionView::Resize(size),
            SessionAction::Shutdown(reason) => action@ == ActionView::Shutdown(reason),
            SessionAction::Finish => action@ is Finish,
            SessionAction::Fail(failure) => action@ == ActionView::Fail(failure),
        },
{
}

} // verus!
