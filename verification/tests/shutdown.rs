use alleycat::shutdown::{
    group_alive, signal_sent, GroupSignal, ShutdownAction, ShutdownEvent, ShutdownPhase,
    SHUTDOWN_GRACE_MILLIS,
};

fn run(already_closed: bool, leader: Option<i32>, events: &[ShutdownEvent]) -> Vec<ShutdownAction> {
    let (mut phase, action) = ShutdownPhase::begin(already_closed, leader);
    let mut actions = vec![action];
    for event in events {
        assert!(phase.can_happen(event), "{event:?} in {phase:?}");
        let (next, action) = phase.step(*event);
        phase = next;
        actions.push(action);
    }
    actions
}

const TERM: ShutdownAction = ShutdownAction::Signal {
    group: 77,
    signal: GroupSignal::Terminate,
};
const KILL: ShutdownAction = ShutdownAction::Signal {
    group: 77,
    signal: GroupSignal::Kill,
};
const SENT: ShutdownEvent = ShutdownEvent::Signalled { sent: true };
const UNSENT: ShutdownEvent = ShutdownEvent::Signalled { sent: false };

#[test]
fn stubborn_group_is_killed_after_the_grace() {
    assert_eq!(SHUTDOWN_GRACE_MILLIS, 200);
    let actions = run(
        false,
        Some(77),
        &[
            SENT,
            ShutdownEvent::Slept,
            ShutdownEvent::Probed { alive: true },
            SENT,
            ShutdownEvent::ChildKilled,
        ],
    );
    assert_eq!(
        actions,
        vec![
            TERM,
            ShutdownAction::Sleep { millis: 200 },
            ShutdownAction::Probe { group: 77 },
            KILL,
            ShutdownAction::KillChild,
            ShutdownAction::Finish
        ]
    );
}

#[test]
fn group_that_ended_is_not_killed() {
    let actions = run(
        false,
        Some(2),
        &[
            SENT,
            ShutdownEvent::Slept,
            ShutdownEvent::Probed { alive: false },
            ShutdownEvent::ChildKilled,
        ],
    );
    assert_eq!(actions[3..], [ShutdownAction::KillChild, ShutdownAction::Finish]);
}

#[test]
fn failed_signal_falls_back_to_the_child() {
    assert_eq!(
        run(false, Some(77), &[UNSENT, ShutdownEvent::ChildKilled]),
        vec![TERM, ShutdownAction::KillChild, ShutdownAction::Finish]
    );
    let late = run(
        false,
        Some(77),
        &[
            SENT,
            ShutdownEvent::Slept,
            ShutdownEvent::Probed { alive: true },
            UNSENT,
            ShutdownEvent::ChildKilled,
        ],
    );
    assert_eq!(late[4..], [ShutdownAction::KillChild, ShutdownAction::Finish]);
}

#[test]
fn no_group_of_its_own_is_not_signalled() {
    for leader in [None, Some(1), Some(0), Some(-5)] {
        assert_eq!(
            run(false, leader, &[ShutdownEvent::ChildKilled]),
            vec![ShutdownAction::KillChild, ShutdownAction::Finish]
        );
    }
}

#[test]
fn second_shutdown_does_nothing() {
    assert_eq!(run(true, Some(77), &[]), vec![ShutdownAction::Finish]);
    let (phase, _) = ShutdownPhase::begin(true, Some(77));
    for event in [SENT, ShutdownEvent::Slept, ShutdownEvent::ChildKilled] {
        assert!(!phase.can_happen(&event));
    }
}

#[test]
fn missing_process_counts_as_signalled_and_gone() {
    assert!(signal_sent(0, None, 3));
    assert!(signal_sent(-1, Some(3), 3));
    assert!(!signal_sent(-1, Some(1), 3));
    assert!(!signal_sent(-1, None, 3));
    assert!(group_alive(0, None, 3));
    assert!(!group_alive(-1, Some(3), 3));
    assert!(group_alive(-1, Some(1), 3));
    assert!(group_alive(-1, None, 3));
}
