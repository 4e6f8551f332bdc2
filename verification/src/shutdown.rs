//! The shutdown of a terminal: its process group is asked to end, is made to
//! if it is still there after a while, and then its child is killed.
use vstd::prelude::*;

verus! {

/// How long a process group is given to end, in milliseconds.
pub const SHUTDOWN_GRACE_MILLIS: u64 = 200;

/// A signal to a process group.
#[derive(Debug, Clone, Copy, PartialEq, Eq, Structural)]
pub enum GroupSignal {
    /// Ask the group to end.
    Terminate,
    /// Make the group end.
    Kill,
}

/// Where a shutdown stands.
#[derive(Debug, Clone, Copy, PartialEq, Eq, Structural)]
pub enum ShutdownPhase {
    /// The group is being asked to end.
    Terminating { group: i32 },
    /// The group is given time to end.
    Grace { group: i32 },
    /// It is being found out whether the group is still there.
    Probing { group: i32 },
    /// The group is being made to end.
    Killing { group: i32 },
    /// The child is being killed.
    KillingChild,
    /// The shutdown is over.
    Ended,
}

/// What happened.
#[derive(Debug, Clone, Copy, PartialEq, Eq, Structural)]
pub enum ShutdownEvent {
    /// The signal was sent, or could not be.
    Signalled { sent: bool },
    /// The time is up.
    Slept,
    /// The group is still there, or not.
    Probed { alive: bool },
    /// The attempt to kill the child is over.
    ChildKilled,
}

/// What to do next.
#[derive(Debug, Clone, Copy, PartialEq, Eq, Structural)]
pub enum ShutdownAction {
    /// Send this signal to this process group.
    Signal { group: i32, signal: GroupSignal },
    /// Wait so many milliseconds.
    Sleep { millis: u64 },
    /// Find out whether this process group is still there.
    Probe { group: i32 },
    /// Kill the child.
    KillChild,
    /// Nothing: the shutdown is over.
    Finish,
}

/// A signal counts as sent if the call succeeded or found no such process.
pub open spec fn counts_as_sent(status: i32, errno: Option<i32>, no_such_process: i32) -> bool {
    status == 0 || errno == Some(no_such_process)
}

/// A process group counts as there unless the call failed to find it.
pub open spec fn counts_as_there(status: i32, errno: Option<i32>, no_such_process: i32) -> bool {
    status == 0 || errno != Some(no_such_process)
}

/// A signal counts as sent if the call succeeded or found no such process:
/// `status` is what the call returned, `errno` the error it left, and
/// `no_such_process` the system's number for that error.
pub fn signal_sent(status: i32, errno: Option<i32>, no_such_process: i32) -> (r: bool)
    ensures
        r == (status == 0 || errno == Some(no_such_process)),
        r == counts_as_sent(status, errno, no_such_process),
{
    if status == 0 {
        return true;
    }
    match errno {
        Some(code) => code == no_such_process,
        None => false,
    }
}

/// A process group is there unless probing it found no such process; the
/// arguments are those of `signal_sent`.
pub fn group_alive(status: i32, errno: Option<i32>, no_such_process: i32) -> (r: bool)
    ensures
        r == (status == 0 || errno != Some(no_such_process)),
        r == counts_as_there(status, errno, no_such_process),
{
    if status == 0 {
        return true;
    }
    match errno {
        Some(code) => code != no_such_process,
        None => true,
    }
}

/// How a shutdown begins. One that was begun before is not begun again. Groups
/// up to 1 are not signalled: they are no terminal's own.
pub open spec fn first_step(already_closed: bool, leader: Option<i32>) -> (
    ShutdownPhase,
    ShutdownAction,
) {
    if already_closed {
        (ShutdownPhase::Ended, ShutdownAction::Finish)
    } else {
        match leader {
            Some(group) => if group > 1 {
                (
                    ShutdownPhase::Terminating { group },
                    ShutdownAction::Signal { group, signal: GroupSignal::Terminate },
                )
            } else {
                (ShutdownPhase::KillingChild, ShutdownAction::KillChild)
            },
            None => (ShutdownPhase::KillingChild, ShutdownAction::KillChild),
        }
    }
}

/// Whether `event` can happen in `phase`.
pub open spec fn may_happen(phase: ShutdownPhase, event: ShutdownEvent) -> bool {
    match phase {
        ShutdownPhase::Terminating { .. } => event is Signalled,
        ShutdownPhase::Grace { .. } => event is Slept,
        ShutdownPhase::Probing { .. } => event is Probed,
        ShutdownPhase::Killing { .. } => event is Signalled,
        ShutdownPhase::KillingChild => event is ChildKilled,
        ShutdownPhase::Ended => false,
    }
}

/// Where `event` leads from `phase`, and what is to be done. Whatever comes of
/// the group, the child is killed.
pub open spec fn next_step(phase: ShutdownPhase, event: ShutdownEvent) -> (
    ShutdownPhase,
    ShutdownAction,
) {
    match (phase, event) {
        (ShutdownPhase::Terminating { group }, ShutdownEvent::Signalled { sent: true }) => (
            ShutdownPhase::Grace { group },
            ShutdownAction::Sleep { millis: SHUTDOWN_GRACE_MILLIS },
        ),
        (ShutdownPhase::Grace { group }, _) => (
            ShutdownPhase::Probing { group },
            ShutdownAction::Probe { group },
        ),
        (ShutdownPhase::Probing { group }, ShutdownEvent::Probed { alive: true }) => (
            ShutdownPhase::Killing { group },
            ShutdownAction::Signal { group, signal: GroupSignal::Kill },
        ),
        (ShutdownPhase::KillingChild, _) => (ShutdownPhase::Ended, ShutdownAction::Finish),
        (ShutdownPhase::Ended, _) => (ShutdownPhase::Ended, ShutdownAction::Finish),
        _ => (ShutdownPhase::KillingChild, ShutdownAction::KillChild),
    }
}

impl ShutdownPhase {
    /// Begins a shutdown: `already_closed` says whether one was begun before,
    /// `leader` is the terminal's process group.
    pub fn begin(already_closed: bool, leader: Option<i32>) -> (r: (ShutdownPhase, ShutdownAction))
        ensures
            r == first_step(already_closed, leader),
    {
        if already_closed {
            return (ShutdownPhase::Ended, ShutdownAction::Finish);
        }
        match leader {
            Some(group) => if group <= 1 {
                (ShutdownPhase::KillingChild, ShutdownAction::KillChild)
            } else {
                (
                    ShutdownPhase::Terminating { group },
                    ShutdownAction::Signal { group, signal: GroupSignal::Terminate },
                )
            },
            None => (ShutdownPhase::KillingChild, ShutdownAction::KillChild),
        }
    }

    /// Whether `event` can happen in this phase.
    pub fn can_happen(&self, event: &ShutdownEvent) -> (r: bool)
        ensures
            r == may_happen(*self, *event),
    {
        match self {
            ShutdownPhase::Terminating { .. } | ShutdownPhase::Killing { .. } => matches!(
                event,
                ShutdownEvent::Signalled { .. }
            ),
            ShutdownPhase::Grace { .. } => matches!(event, ShutdownEvent::Slept),
            ShutdownPhase::Probing { .. } => matches!(event, ShutdownEvent::Probed { .. }),
            ShutdownPhase::KillingChild => matches!(event, ShutdownEvent::ChildKilled),
            ShutdownPhase::Ended => false,
        }
    }

    /// Takes what happened, and says where the shutdown stands now and what to
    /// do next.
    pub fn step(self, event: ShutdownEvent) -> (r: (ShutdownPhase, ShutdownAction))
        requires
            may_happen(self, event),
        ensures
            r == next_step(self, event),
    {
        match self {
            ShutdownPhase::Terminating { group } => match event {
                ShutdownEvent::Signalled { sent: true } => (
                    ShutdownPhase::Grace { group },
                    ShutdownAction::Sleep { millis: SHUTDOWN_GRACE_MILLIS },
                ),
                _ => (ShutdownPhase::KillingChild, ShutdownAction::KillChild),
            },
            ShutdownPhase::Grace { group } => (
                ShutdownPhase::Probing { group },
                ShutdownAction::Probe { group },
            ),
            ShutdownPhase::Probing { group } => match event {
                ShutdownEvent::Probed { alive: true } => (
                    ShutdownPhase::Killing { group },
                    ShutdownAction::Signal { group, signal: GroupSignal::Kill },
                ),
                _ => (ShutdownPhase::KillingChild, ShutdownAction::KillChild),
            },
            ShutdownPhase::Killing { group: _ } => (
                ShutdownPhase::KillingChild,
                ShutdownAction::KillChild,
            ),
            ShutdownPhase::KillingChild => (ShutdownPhase::Ended, ShutdownAction::Finish),
            ShutdownPhase::Ended => (ShutdownPhase::Ended, ShutdownAction::Finish),
        }
    }
}

/// Where a shutdown stands after `events`, and what it does.
pub open spec fn step_after(
    already_closed: bool,
    leader: Option<i32>,
    events: Seq<ShutdownEvent>,
) -> (ShutdownPhase, ShutdownAction)
    decreases events.len(),
{
    if events.len() == 0 {
        first_step(already_closed, leader)
    } else {
        next_step(step_after(already_closed, leader, events.drop_last()).0, events.last())
    }
}

/// `events` can happen in a shutdown, in this order.
pub open spec fn can_run(
    already_closed: bool,
    leader: Option<i32>,
    events: Seq<ShutdownEvent>,
) -> bool
    decreases events.len(),
{
    events.len() == 0 || (can_run(already_closed, leader, events.drop_last()) && may_happen(
        step_after(already_closed, leader, events.drop_last()).0,
        events.last(),
    ))
}

/// What must have happened for a shutdown to be in this phase.
proof fn history(already_closed: bool, leader: Option<i32>, events: Seq<ShutdownEvent>)
    requires
        can_run(already_closed, leader, events),
    ensures
        ({
            let (phase, action) = step_after(already_closed, leader, events);
            match phase {
                ShutdownPhase::Terminating { group } => !already_closed && leader == Some(group)
                    && group > 1 && events.len() == 0 && action == (ShutdownAction::Signal {
                    group,
                    signal: GroupSignal::Terminate,
                }),
                ShutdownPhase::Grace { group } => !already_closed && leader == Some(group) && group
                    > 1 && events == seq![ShutdownEvent::Signalled { sent: true }] && action == (
                ShutdownAction::Sleep { millis: SHUTDOWN_GRACE_MILLIS }),
                ShutdownPhase::Probing { group } => !already_closed && leader == Some(group)
                    && group > 1 && events == seq![
                    ShutdownEvent::Signalled { sent: true },
                    ShutdownEvent::Slept,
                ] && action == (ShutdownAction::Probe { group }),
                ShutdownPhase::Killing { group } => !already_closed && leader == Some(group)
                    && group > 1 && events == seq![
                    ShutdownEvent::Signalled { sent: true },
                    ShutdownEvent::Slept,
                    ShutdownEvent::Probed { alive: true },
                ] && action == (ShutdownAction::Signal { group, signal: GroupSignal::Kill }),
                ShutdownPhase::KillingChild => !already_closed && events.len() <= 4 && action
                    is KillChild,
                ShutdownPhase::Ended => action is Finish && if already_closed {
                    events.len() == 0
                } else {
                    1 <= events.len() <= 5 && step_after(
                        already_closed,
                        leader,
                        events.drop_last(),
                    ).1 is KillChild
                },
            }
        }),
    decreases events.len(),
{
    if events.len() > 0 {
        let before = events.drop_last();
        history(already_closed, leader, before);
        assert(events =~= before.push(events.last()));
        let phase = step_after(already_closed, leader, events).0;
        match phase {
            ShutdownPhase::Grace { .. } => {
                assert(events =~= seq![ShutdownEvent::Signalled { sent: true }]);
            },
            ShutdownPhase::Probing { .. } => {
                assert(events =~= seq![
                    ShutdownEvent::Signalled { sent: true },
                    ShutdownEvent::Slept,
                ]);
            },
            ShutdownPhase::Killing { .. } => {
                assert(events =~= seq![
                    ShutdownEvent::Signalled { sent: true },
                    ShutdownEvent::Slept,
                    ShutdownEvent::Probed { alive: true },
                ]);
            },
            _ => {},
        }
    }
}

/// A shutdown signals its terminal's process group and no other, and never a
/// group up to 1.
pub proof fn only_own_group_is_signalled(
    already_closed: bool,
    leader: Option<i32>,
    events: Seq<ShutdownEvent>,
    group: i32,
    signal: GroupSignal,
)
    requires
        can_run(already_closed, leader, events),
        step_after(already_closed, leader, events).1 == (ShutdownAction::Signal { group, signal }),
    ensures
        leader == Some(group),
        group > 1,
{
    history(already_closed, leader, events);
}

/// A process group is made to end only after it was asked to, was given time,
/// and was still there.
pub proof fn kill_comes_after_grace(
    already_closed: bool,
    leader: Option<i32>,
    events: Seq<ShutdownEvent>,
    group: i32,
)
    requires
        can_run(already_closed, leader, events),
        step_after(already_closed, leader, events).1 == (ShutdownAction::Signal {
            group,
            signal: GroupSignal::Kill,
        }),
    ensures
        events == seq![
            ShutdownEvent::Signalled { sent: true },
            ShutdownEvent::Slept,
            ShutdownEvent::Probed { alive: true },
        ],
        step_after(already_closed, leader, seq![]).1 == (ShutdownAction::Signal {
            group,
            signal: GroupSignal::Terminate,
        }),
        step_after(already_closed, leader, events.take(1)).1 == (ShutdownAction::Sleep {
            millis: SHUTDOWN_GRACE_MILLIS,
        }),
        step_after(already_closed, leader, events.take(2)).1 == (ShutdownAction::Probe { group }),
{
    history(already_closed, leader, events);
    let two = events.drop_last();
    assert(can_run(already_closed, leader, two));
    assert(two =~= events.take(2));
    let one = two.drop_last();
    assert(two.len() == 2);
    assert(can_run(already_closed, leader, one));
    assert(one =~= events.take(1));
    assert(one.drop_last() =~= seq![]);
    history(already_closed, leader, two);
    history(already_closed, leader, one);
}

/// A shutdown ends, in at most five steps, and the last thing it does is to
/// kill the child; one that was begun before does nothing at all.
pub proof fn shutdown_ends_with_the_child(
    already_closed: bool,
    leader: Option<i32>,
    events: Seq<ShutdownEvent>,
)
    requires
        can_run(already_closed, leader, events),
    ensures
        events.len() <= 5,
        step_after(already_closed, leader, events).0 is Ended <==> step_after(
            already_closed,
            leader,
            events,
        ).1 is Finish,
        already_closed ==> events.len() == 0 && step_after(
            already_closed,
            leader,
            events,
        ).1 is Finish,
        !already_closed && step_after(already_closed, leader, events).1 is Finish ==> events.len()
            > 0 && step_after(already_closed, leader, events.drop_last()).1 is KillChild,
{
    history(already_closed, leader, events);
}

/// `event` is an outcome of `action`.
pub open spec fn answers(action: ShutdownAction, event: ShutdownEvent) -> bool {
    match action {
        ShutdownAction::Signal { .. } => event is Signalled,
        ShutdownAction::Sleep { .. } => event is Slept,
        ShutdownAction::Probe { .. } => event is Probed,
        ShutdownAction::KillChild => event is ChildKilled,
        ShutdownAction::Finish => false,
    }
}

/// What can happen next in a shutdown is an outcome of what was just asked for,
/// and every such outcome can happen.
pub proof fn every_outcome_can_happen(
    already_closed: bool,
    leader: Option<i32>,
    events: Seq<ShutdownEvent>,
    event: ShutdownEvent,
)
    requires
        can_run(already_closed, leader, events),
    ensures
        can_run(already_closed, leader, events.push(event)) <==> answers(
            step_after(already_closed, leader, events).1,
            event,
        ),
{
    history(already_closed, leader, events);
    assert(events.push(event).drop_last() =~= events);
}

/// The first shutdown of a terminal asks its process group to end if it has one of
/// its own, and otherwise kills the child at once. A second shutdown does nothing.
pub proof fn first_shutdown_acts(already_closed: bool, leader: Option<i32>)
    ensures
        ({
            let action = step_after(already_closed, leader, seq![]).1;
            &&& already_closed ==> action is Finish
            &&& !already_closed ==> if leader is Some && leader->0 >= 2 {
                action == (ShutdownAction::Signal {
                    group: leader->0,
                    signal: GroupSignal::Terminate,
                })
            } else {
                action is KillChild
            }
        }),
{
}

/// A process group that was asked to end is given a fifth of a second and then
/// looked for; if it is still there it is made to end. A group that could not be
/// asked, one that has gone and one that was made to end are followed by the
/// child, and that by the end.
pub proof fn shutdown_goes_step_by_step(
    already_closed: bool,
    leader: Option<i32>,
    events: Seq<ShutdownEvent>,
    event: ShutdownEvent,
)
    requires
        can_run(already_closed, leader, events.push(event)),
    ensures
        ({
            let asked = step_after(already_closed, leader, events).1;
            let next = step_after(already_closed, leader, events.push(event)).1;
            match (asked, event) {
                (
                    ShutdownAction::Signal { signal: GroupSignal::Terminate, .. },
                    ShutdownEvent::Signalled { sent },
                ) => if sent {
                    next == (ShutdownAction::Sleep { millis: 200 })
                } else {
                    next is KillChild
                },
                (
                    ShutdownAction::Signal { signal: GroupSignal::Kill, .. },
                    ShutdownEvent::Signalled { .. },
                ) => next is KillChild,
                (ShutdownAction::Sleep { .. }, ShutdownEvent::Slept) => leader is Some && next == (
                ShutdownAction::Probe { group: leader->0 }),
                (ShutdownAction::Probe { group }, ShutdownEvent::Probed { alive }) => if alive {
                    next == (ShutdownAction::Signal { group, signal: GroupSignal::Kill })
                } else {
                    next is KillChild
                },
                (ShutdownAction::KillChild, ShutdownEvent::ChildKilled) => next is Finish,
                _ => false,
            }
        }),
{
    assert(events.push(event).drop_last() =~= events);
    history(already_closed, leader, events);
}

/// A call that succeeds reached the group, which is there. A call that fails
/// reached it only in that it is gone: exactly one of sent and there holds, and
/// which one is told by the error alone.
pub proof fn failed_call_tells_sent_from_there(
    status: i32,
    errno: Option<i32>,
    no_such_process: i32,
)
    ensures
        status == 0 ==> counts_as_sent(status, errno, no_such_process) && counts_as_there(
            status,
            errno,
            no_such_process,
        ),
        status != 0 ==> counts_as_sent(status, errno, no_such_process) != counts_as_there(
            status,
            errno,
            no_such_process,
        ),
        status != 0 ==> (counts_as_sent(status, errno, no_such_process) <==> (errno is Some
            && errno->0 == no_such_process)),
{
}

} // verus!
