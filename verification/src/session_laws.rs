//! What holds of every session, whatever happens in it.
use crate::error::TerminalWireError;
use crate::payload::exit_bytes;
use crate::payload::exit_round_trips;
use crate::payload::hello_reply;
use crate::payload::resize_bytes;
use crate::payload::resize_round_trips;
use crate::payload::signed_bits;
use crate::payload::speaks_version;
use crate::payload::ErrorView;
use crate::payload::TerminalSize;
use crate::session::accepts;
use crate::session::exit_frame_view;
use crate::session::leave_with;
use crate::session::next;
use crate::session::on_client_frame;
use crate::session::on_terminal_event;
use crate::session::told;
use crate::session::ActionView;
use crate::session::EventView;
use crate::session::Refusal;
use crate::session::RunState;
use crate::session::SessionFailure;
use crate::session::SessionPhase;
use crate::session::ShutdownReason;
use crate::session::TerminalEventView;
use crate::wire::be32_value;
use crate::wire::frame_bytes;
use crate::wire::parse_frame;
use crate::wire::FrameView;
use crate::wire::Parsed;
use crate::wire::TerminalFrameKind;
use crate::wire::MAX_FRAME_BYTES;
use crate::wire_laws::frame_round_trips;
use vstd::prelude::*;

verus! {

/// Where a session stands after `events`.
pub open spec fn phase_after(events: Seq<EventView>) -> SessionPhase
    decreases events.len(),
{
    if events.len() == 0 {
        SessionPhase::AwaitingHello
    } else {
        next(phase_after(events.drop_last()), events.last()).0
    }
}

/// What a session does after `events`.
pub open spec fn action_after(events: Seq<EventView>) -> ActionView {
    if events.len() == 0 {
        ActionView::ReadFrame
    } else {
        next(phase_after(events.drop_last()), events.last()).1
    }
}

/// `events` can happen in a session, in this order.
pub open spec fn can_run(events: Seq<EventView>) -> bool
    decreases events.len(),
{
    events.len() == 0 || (can_run(events.drop_last()) && accepts(
        phase_after(events.drop_last()),
        events.last(),
    ))
}

/// The start of a session that can run can run.
proof fn prefix_can_run(events: Seq<EventView>, n: int)
    requires
        can_run(events),
        0 <= n <= events.len(),
    ensures
        can_run(events.take(n)),
    decreases events.len(),
{
    if n == events.len() {
        assert(events.take(n) =~= events);
    } else {
        prefix_can_run(events.drop_last(), n);
        assert(events.drop_last().take(n) =~= events.take(n));
    }
}

/// The frame is of this kind.
pub open spec fn is_frame(event: EventView, kind: TerminalFrameKind) -> bool {
    event matches EventView::Frame(frame) && frame.kind == kind
}

/// The first `n` steps of a handshake that succeeds.
pub open spec fn shook_hands(events: Seq<EventView>, n: int) -> bool {
    &&& events.len() >= n
    &&& n >= 1 ==> is_frame(events[0], TerminalFrameKind::Hello)
    &&& n >= 2 ==> (events[1] matches EventView::Hello(hello) && speaks_version(hello))
    &&& n >= 3 ==> events[2] is Done
    &&& n >= 4 ==> is_frame(events[3], TerminalFrameKind::Start)
    &&& n >= 5 ==> (events[4] matches EventView::Start(start) && (TerminalSize {
        cols: start.cols,
        rows: start.rows,
    }).valid())
    &&& n >= 6 ==> events[5] is Spawned
}

/// What must have happened for a session to be in this phase.
proof fn history(events: Seq<EventView>)
    requires
        can_run(events),
    ensures
        match phase_after(events) {
            SessionPhase::AwaitingHello => events.len() == 0,
            SessionPhase::DecodingHello => events.len() == 1 && shook_hands(events, 1),
            SessionPhase::SendingHello => events.len() == 2 && shook_hands(events, 2),
            SessionPhase::AwaitingStart => events.len() == 3 && shook_hands(events, 3),
            SessionPhase::DecodingStart => events.len() == 4 && shook_hands(events, 4),
            SessionPhase::Spawning => events.len() == 5 && shook_hands(events, 5),
            SessionPhase::Waiting(_) => shook_hands(events, 6),
            SessionPhase::Acting(_) => shook_hands(events, 6),
            SessionPhase::Leaving => shook_hands(events, 6),
            SessionPhase::CleaningUp(_) => shook_hands(events, 6),
            _ => true,
        },
    decreases events.len(),
{
    if events.len() > 0 {
        let before = events.drop_last();
        history(before);
        assert(forall|i: int| 0 <= i < before.len() ==> before[i] == events[i]);
    }
}

/// A terminal is spawned only for a client that said hello in a version spoken
/// here, was answered, and asked for a terminal of a valid size; it gets the
/// size and the directory that were asked for.
pub proof fn spawn_follows_handshake(events: Seq<EventView>)
    requires
        can_run(events),
        action_after(events) is Spawn,
    ensures
        events.len() == 5,
        shook_hands(events, 5),
        action_after(events.take(2)) == ActionView::SendHello(hello_reply()),
        events[4] matches EventView::Start(start) && action_after(events) == (ActionView::Spawn {
            cwd: start.cwd,
            size: TerminalSize { cols: start.cols, rows: start.rows },
        }),
{
    history(events);
    prefix_can_run(events, 2);
    let first = events.take(2);
    assert(first.drop_last() =~= events.take(1));
    prefix_can_run(events, 1);
    let one = events.take(1);
    assert(one.drop_last() =~= seq![]);
    assert(phase_after(one) is DecodingHello);
}

/// A session spawns at most one terminal.
pub proof fn spawns_once(events: Seq<EventView>, i: int, j: int)
    requires
        can_run(events),
        0 <= i <= events.len(),
        0 <= j <= events.len(),
        action_after(events.take(i)) is Spawn,
        action_after(events.take(j)) is Spawn,
    ensures
        i == j,
{
    prefix_can_run(events, i);
    prefix_can_run(events, j);
    spawn_follows_handshake(events.take(i));
    spawn_follows_handshake(events.take(j));
}

/// The action reaches a terminal, or forwards what came from one.
pub open spec fn touches_terminal(action: ActionView) -> bool {
    ||| action is WriteInput
    ||| action is Resize
    ||| action is Shutdown
    ||| action is SendFrame
    ||| action is Wait
}

/// Nothing is done with a terminal before one has been spawned.
pub proof fn terminal_is_touched_only_when_spawned(events: Seq<EventView>)
    requires
        can_run(events),
        touches_terminal(action_after(events)),
    ensures
        shook_hands(events, 6),
{
    history(events);
    history(events.drop_last());
    let before = events.drop_last();
    assert(forall|i: int| 0 <= i < before.len() ==> before[i] == events[i]);
}

/// The refusal is the one for this failure.
pub open spec fn fits(refusal: Refusal, failure: SessionFailure) -> bool {
    match refusal {
        Refusal::UnsupportedPeer => failure is Wire,
        Refusal::ExpectedHello => failure is ExpectedHello,
        Refusal::InvalidHello => failure == SessionFailure::Wire(TerminalWireError::Decode),
        Refusal::UnsupportedVersion => failure is UnsupportedVersion,
        Refusal::ExpectedStart => failure is ExpectedStart,
        Refusal::InvalidStart => failure == SessionFailure::Wire(TerminalWireError::Decode),
        Refusal::Size(invalid) => failure == SessionFailure::Size(invalid),
        Refusal::SpawnFailed(_) => failure is Outside,
        Refusal::SpawnAborted => failure is Outside,
        Refusal::UnexpectedFrame => false,
    }
}

/// The client was told of this failure by the action before it.
pub open spec fn was_told(events: Seq<EventView>, failure: SessionFailure) -> bool {
    exists|refusal: Refusal| #[trigger]
        fits(refusal, failure) && action_after(events.drop_last()) == ActionView::SendError(
            told(refusal),
        )
}

/// In a refusal, the error frame that fits the failure is being sent.
proof fn refusing_tells(events: Seq<EventView>)
    requires
        can_run(events),
        phase_after(events) is Refusing,
    ensures
        exists|refusal: Refusal| #[trigger]
            fits(refusal, phase_after(events)->failure) && action_after(events)
                == ActionView::SendError(told(refusal)) && (phase_after(events)->peer_known
                <==> !(refusal is UnsupportedPeer)),
{
    let phase = phase_after(events.drop_last());
    let failure = phase_after(events)->failure;
    match (phase, events.last()) {
        (SessionPhase::AwaitingHello, EventView::ReadFailed(e)) => {
            assert(fits(Refusal::UnsupportedPeer, failure));
        },
        (SessionPhase::AwaitingHello, _) => {
            assert(fits(Refusal::ExpectedHello, failure));
        },
        (SessionPhase::DecodingHello, EventView::Undecodable) => {
            assert(fits(Refusal::InvalidHello, failure));
        },
        (SessionPhase::DecodingHello, _) => {
            assert(fits(Refusal::UnsupportedVersion, failure));
        },
        (SessionPhase::AwaitingStart, _) => {
            assert(fits(Refusal::ExpectedStart, failure));
        },
        (SessionPhase::DecodingStart, EventView::Undecodable) => {
            assert(fits(Refusal::InvalidStart, failure));
        },
        (SessionPhase::DecodingStart, _) => {
            assert(fits(Refusal::Size(failure->Size_0), failure));
        },
        (SessionPhase::Spawning, EventView::SpawnFailed(why)) => {
            assert(fits(Refusal::SpawnFailed(why), failure));
        },
        (SessionPhase::Spawning, _) => {
            assert(fits(Refusal::SpawnAborted, failure));
        },
        _ => {},
    }
}

/// A session that fails without a terminal has sent its client the error frame
/// that says why. The exceptions are a stream that broke between the hello and
/// the start request, and a frame that could not be sent.
pub proof fn refused_client_is_told(events: Seq<EventView>)
    requires
        can_run(events),
        action_after(events) is Fail,
        !shook_hands(events, 6),
    ensures
        ({
            ||| was_told(events, action_after(events)->Fail_0)
            ||| (events.last() is Failed && action_after(events)->Fail_0 is Outside)
            ||| (events.len() == 4 && events[3] is ReadFailed)
        }),
{
    let before = events.drop_last();
    history(before);
    assert(forall|i: int| 0 <= i < before.len() ==> before[i] == events[i]);
    if phase_after(before) is Refusing {
        refusing_tells(before);
    }
}

/// A frame that a live session did not expect is answered with an error frame,
/// and the session goes on as if it had not come.
pub proof fn unexpected_frame_is_answered(events: Seq<EventView>, frame: FrameView)
    requires
        can_run(events),
        phase_after(events) is Waiting,
        !phase_after(events)->Waiting_0.close_requested,
        frame.kind != TerminalFrameKind::Input,
        frame.kind != TerminalFrameKind::Resize,
        frame.kind != TerminalFrameKind::Close,
    ensures
        can_run(events.push(EventView::Frame(frame)).push(EventView::Done)),
        action_after(events.push(EventView::Frame(frame))) == ActionView::SendError(
            told(Refusal::UnexpectedFrame),
        ),
        phase_after(events.push(EventView::Frame(frame)).push(EventView::Done)) == phase_after(
            events,
        ),
{
    let one = events.push(EventView::Frame(frame));
    let two = one.push(EventView::Done);
    assert(one.drop_last() =~= events);
    assert(can_run(one));
    assert(two.drop_last() =~= one);
}

/// Nothing that an unreadable peer sent shows in what it is told: the answer
/// is the same whatever was wrong.
pub proof fn unreadable_peer_is_told_nothing_of_its_bytes(a: TerminalWireError, b: TerminalWireError)
    ensures
        next(SessionPhase::AwaitingHello, EventView::ReadFailed(a)).1 == next(
            SessionPhase::AwaitingHello,
            EventView::ReadFailed(b),
        ).1,
        next(SessionPhase::AwaitingHello, EventView::ReadFailed(a)).1 == ActionView::SendError(
            ErrorView { code: "unsupported_peer"@, message: "unsupported terminal peer"@ },
        ),
{
}

/// The session reads no more from its client.
pub open spec fn client_is_shut_out(phase: SessionPhase) -> bool {
    match phase {
        SessionPhase::Waiting(run) => run.close_requested,
        SessionPhase::Acting(run) => run.close_requested,
        SessionPhase::Leaving => true,
        SessionPhase::CleaningUp(_) => true,
        SessionPhase::Ended => true,
        _ => false,
    }
}

/// The action listens to the client or acts on what it sent.
pub open spec fn serves_client(action: ActionView) -> bool {
    ||| action is ReadFrame
    ||| action is DecodeHello
    ||| action is DecodeStart
    ||| action is WriteInput
    ||| action is Resize
    ||| action == ActionView::Wait { read_client: true }
}

/// A client that is shut out stays shut out.
proof fn shut_out_for_good(events: Seq<EventView>, i: int)
    requires
        can_run(events),
        0 <= i <= events.len(),
        client_is_shut_out(phase_after(events.take(i))),
    ensures
        client_is_shut_out(phase_after(events)),
        i < events.len() ==> !serves_client(action_after(events)) && !(action_after(events)
            == ActionView::Shutdown(ShutdownReason::ClientClose)),
    decreases events.len(),
{
    if i == events.len() {
        assert(events.take(i) =~= events);
    } else {
        let before = events.drop_last();
        assert(before.take(i) =~= events.take(i));
        shut_out_for_good(before, i);
    }
}

/// Once the client has asked to close, nothing more is read from it, written
/// for it or resized for it, and it is not shut down for closing again.
pub proof fn close_is_final(events: Seq<EventView>, i: int, j: int)
    requires
        can_run(events),
        0 <= i < j <= events.len(),
        action_after(events.take(i)) == ActionView::Shutdown(ShutdownReason::ClientClose),
    ensures
        !serves_client(action_after(events.take(j))),
        action_after(events.take(j)) != ActionView::Shutdown(ShutdownReason::ClientClose),
{
    prefix_can_run(events, i);
    prefix_can_run(events, j);
    assert(events.take(j).take(i) =~= events.take(i));
    shut_out_for_good(events.take(j), i);
}

/// The chunks that the terminal wrote, in order.
pub open spec fn terminal_output(events: Seq<EventView>) -> Seq<Seq<u8>>
    decreases events.len(),
{
    if events.len() == 0 {
        seq![]
    } else {
        let before = terminal_output(events.drop_last());
        match events.last() {
            EventView::Terminal(TerminalEventView::Output(bytes)) => before.push(bytes),
            _ => before,
        }
    }
}

/// The payloads of the output frames that the client was sent, in order.
pub open spec fn sent_output(events: Seq<EventView>) -> Seq<Seq<u8>>
    decreases events.len(),
{
    if events.len() == 0 {
        seq![]
    } else {
        let before = sent_output(events.drop_last());
        match action_after(events) {
            ActionView::SendFrame(frame) => if frame.kind == TerminalFrameKind::Output {
                before.push(frame.payload)
            } else {
                before
            },
            _ => before,
        }
    }
}

/// The client is sent what the terminal wrote: every chunk, byte for byte, in
/// the order written, and nothing else.
pub proof fn output_is_forwarded(events: Seq<EventView>)
    requires
        can_run(events),
    ensures
        sent_output(events) == terminal_output(events),
    decreases events.len(),
{
    if events.len() > 0 {
        output_is_forwarded(events.drop_last());
    }
}

/// The input that the client sent to its live terminal, in order.
pub open spec fn client_input(events: Seq<EventView>) -> Seq<Seq<u8>>
    decreases events.len(),
{
    if events.len() <= 6 {
        seq![]
    } else {
        let before = client_input(events.drop_last());
        match events.last() {
            EventView::Frame(frame) => if frame.kind == TerminalFrameKind::Input {
                before.push(frame.payload)
            } else {
                before
            },
            _ => before,
        }
    }
}

/// What was written to the terminal, in order.
pub open spec fn written_input(events: Seq<EventView>) -> Seq<Seq<u8>>
    decreases events.len(),
{
    if events.len() == 0 {
        seq![]
    } else {
        let before = written_input(events.drop_last());
        match action_after(events) {
            ActionView::WriteInput(bytes) => before.push(bytes),
            _ => before,
        }
    }
}

/// The terminal gets what its client typed: every chunk, byte for byte, in the
/// order sent, and nothing else.
pub proof fn input_is_forwarded(events: Seq<EventView>)
    requires
        can_run(events),
    ensures
        written_input(events) == client_input(events),
    decreases events.len(),
{
    if events.len() > 0 {
        input_is_forwarded(events.drop_last());
        history(events.drop_last());
        history(events);
    }
}

/// The exit code that the terminal reported last.
pub open spec fn last_exit(events: Seq<EventView>) -> Option<i32>
    decreases events.len(),
{
    if events.len() == 0 {
        None
    } else {
        match events.last() {
            EventView::Terminal(TerminalEventView::Exit(code)) => Some(code),
            _ => last_exit(events.drop_last()),
        }
    }
}

/// The terminal reported that it will write no more.
pub open spec fn output_ended(events: Seq<EventView>) -> bool
    decreases events.len(),
{
    events.len() > 0 && (events.last() == EventView::Terminal(TerminalEventView::OutputClosed)
        || output_ended(events.drop_last()))
}

/// A live session remembers what its terminal reported.
proof fn run_state_remembers(events: Seq<EventView>)
    requires
        can_run(events),
    ensures
        match phase_after(events) {
            SessionPhase::Waiting(run) => run.pending_exit == last_exit(events)
                && run.output_closed == output_ended(events) && !(run.output_closed
                && run.pending_exit is Some),
            SessionPhase::Acting(run) => run.pending_exit == last_exit(events) && run.output_closed
                == output_ended(events) && !(run.output_closed && run.pending_exit is Some),
            SessionPhase::Leaving => true,
            SessionPhase::CleaningUp(_) => true,
            SessionPhase::Ended => true,
            _ => last_exit(events) is None && !output_ended(events),
        },
    decreases events.len(),
{
    if events.len() > 0 {
        run_state_remembers(events.drop_last());
    }
}

/// The exit code that the client is sent is the one that the terminal reported
/// last, and it is sent only when the terminal's output has ended or its side
/// reports nothing more.
pub proof fn exit_is_reported_after_output(events: Seq<EventView>, frame: FrameView)
    requires
        can_run(events),
        action_after(events) == ActionView::SendFrame(frame),
        frame.kind == TerminalFrameKind::Exit,
    ensures
        last_exit(events) is Some,
        frame.payload == exit_bytes(last_exit(events)->0),
        output_ended(events) || events.last() is TerminalGone,
{
    run_state_remembers(events.drop_last());
}

/// The session is past its last frame.
pub open spec fn is_leaving(phase: SessionPhase) -> bool {
    phase is Leaving || phase is CleaningUp || phase is Ended
}

/// A session that is leaving sends nothing more.
proof fn leaving_is_silent(events: Seq<EventView>, i: int)
    requires
        can_run(events),
        0 <= i <= events.len(),
        is_leaving(phase_after(events.take(i))),
    ensures
        is_leaving(phase_after(events)),
        i < events.len() ==> (action_after(events) is Finish || action_after(events) is Fail
            || action_after(events) == ActionView::Shutdown(ShutdownReason::StreamError)),
    decreases events.len(),
{
    if i == events.len() {
        assert(events.take(i) =~= events);
    } else {
        let before = events.drop_last();
        assert(before.take(i) =~= events.take(i));
        leaving_is_silent(before, i);
    }
}

/// After the exit code nothing more is sent: it is the client's last frame, and
/// it comes once.
pub proof fn exit_is_the_last_frame(events: Seq<EventView>, i: int, j: int)
    requires
        can_run(events),
        0 <= i < j <= events.len(),
        action_after(events.take(i)) matches ActionView::SendFrame(frame) && frame.kind
            == TerminalFrameKind::Exit,
    ensures
        !(action_after(events.take(j)) is SendFrame),
        !(action_after(events.take(j)) is SendError),
        !(action_after(events.take(j)) is SendHello),
{
    prefix_can_run(events, i);
    prefix_can_run(events, j);
    assert(events.take(j).take(i) =~= events.take(i));
    leaving_is_silent(events.take(j), i);
}

/// A live session whose terminal has exited and ended its output has left: it
/// waits for nothing more.
pub proof fn exited_session_leaves(events: Seq<EventView>)
    requires
        can_run(events),
        last_exit(events) is Some,
        output_ended(events),
    ensures
        is_leaving(phase_after(events)),
{
    run_state_remembers(events);
}

/// A session that fails with a live terminal shuts the terminal down first.
pub proof fn failed_session_shuts_down(events: Seq<EventView>)
    requires
        can_run(events),
        action_after(events) is Fail,
        shook_hands(events, 6),
    ensures
        action_after(events.drop_last()) == ActionView::Shutdown(ShutdownReason::StreamError),
{
    let before = events.drop_last();
    history(before);
    live_phase(before);
    live_phase(events);
}

/// Once its terminal has been spawned, a session is live until it leaves.
proof fn live_phase(events: Seq<EventView>)
    requires
        can_run(events),
    ensures
        shook_hands(events, 6) ==> {
            ||| phase_after(events) is Waiting
            ||| phase_after(events) is Acting
            ||| phase_after(events) is Leaving
            ||| (phase_after(events) is CleaningUp && action_after(events) == ActionView::Shutdown(
                ShutdownReason::StreamError,
            ))
            ||| phase_after(events) is Ended
        },
    decreases events.len(),
{
    if events.len() > 0 {
        let before = events.drop_last();
        live_phase(before);
        history(before);
        if events.len() > 6 {
            assert(forall|i: int| 0 <= i < before.len() ==> before[i] == events[i]);
        } else if events.len() == 6 && shook_hands(events, 6) {
            assert(accepts(phase_after(before), EventView::Spawned));
        }
    }
}

/// A session that loses its client shuts its terminal down and, that done, has
/// ended well.
pub proof fn lost_client_ends_session(events: Seq<EventView>, e: TerminalWireError)
    requires
        can_run(events),
        phase_after(events) is Waiting,
        !phase_after(events)->Waiting_0.close_requested,
    ensures
        can_run(events.push(EventView::ReadFailed(e)).push(EventView::Done)),
        action_after(events.push(EventView::ReadFailed(e))) == ActionView::Shutdown(
            ShutdownReason::ClientDisconnect,
        ),
        action_after(events.push(EventView::ReadFailed(e)).push(EventView::Done)) is Finish,
{
    let one = events.push(EventView::ReadFailed(e));
    let two = one.push(EventView::Done);
    assert(one.drop_last() =~= events);
    assert(can_run(one));
    assert(two.drop_last() =~= one);
}

/// A session is over exactly when it said that it finished or failed, and then
/// nothing more happens in it.
pub proof fn ended_session_says_so(events: Seq<EventView>, event: EventView)
    requires
        can_run(events),
    ensures
        phase_after(events) is Ended <==> (action_after(events) is Finish || action_after(
            events,
        ) is Fail),
        phase_after(events) is Ended ==> !can_run(events.push(event)),
{
    assert(events.push(event).drop_last() =~= events);
}

/// What a client types into an input frame is what its terminal is given, byte
/// for byte, whatever follows the frame on the stream.
pub proof fn input_reaches_the_terminal(run: RunState, typed: Seq<u8>, rest: Seq<u8>)
    requires
        typed.len() <= MAX_FRAME_BYTES,
    ensures
        ({
            let frame = FrameView { kind: TerminalFrameKind::Input, payload: typed };
            &&& parse_frame(frame_bytes(frame) + rest) == Parsed::Frame(frame)
            &&& on_client_frame(run, frame) == (
                SessionPhase::Acting(run),
                ActionView::WriteInput(typed),
            )
        }),
{
    frame_round_trips(FrameView { kind: TerminalFrameKind::Input, payload: typed }, rest);
}

/// The size in a client's resize frame is the size that its terminal gets, if
/// a terminal can have it.
pub proof fn resize_reaches_the_terminal(run: RunState, size: TerminalSize, rest: Seq<u8>)
    requires
        size.valid(),
    ensures
        ({
            let frame = FrameView { kind: TerminalFrameKind::Resize, payload: resize_bytes(size) };
            &&& parse_frame(frame_bytes(frame) + rest) == Parsed::Frame(frame)
            &&& on_client_frame(run, frame) == (
                SessionPhase::Acting(run),
                ActionView::Resize(size),
            )
        }),
{
    resize_round_trips(size);
    frame_round_trips(
        FrameView { kind: TerminalFrameKind::Resize, payload: resize_bytes(size) },
        rest,
    );
}

/// What a terminal writes is what its client reads, byte for byte.
pub proof fn output_reaches_the_client(run: RunState, written: Seq<u8>, rest: Seq<u8>)
    requires
        written.len() <= MAX_FRAME_BYTES,
    ensures
        on_terminal_event(run, TerminalEventView::Output(written)).1 matches ActionView::SendFrame(
            frame,
        ) && parse_frame(frame_bytes(frame) + rest) == Parsed::Frame(frame) && frame.kind
            == TerminalFrameKind::Output && frame.payload == written,
{
    frame_round_trips(FrameView { kind: TerminalFrameKind::Output, payload: written }, rest);
}

/// The code that a terminal's process ended with is the code that its client
/// reads.
pub proof fn exit_code_reaches_the_client(code: i32, rest: Seq<u8>)
    ensures
        leave_with(code).1 matches ActionView::SendFrame(frame) && parse_frame(
            frame_bytes(frame) + rest,
        ) == Parsed::Frame(frame) && frame.kind == TerminalFrameKind::Exit && signed_bits(
            be32_value(frame.payload),
        ) == code,
{
    exit_round_trips(code);
    frame_round_trips(exit_frame_view(code), rest);
}

} // verus!
