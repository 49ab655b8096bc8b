use stasis::engine::{EngineClockMode, EngineSession};
use stasis::owner::{OwnerAction, OwnerLoop, Pass, Receipt};
use stasis::profile::OWNER_LOOP_SAFETY_TIMEOUT_NS;
use stasis::shell::{Shell, ShellState};

const NOW: u64 = 1_000;

fn real_shell() -> Shell {
    let mut shell = Shell::new(7);
    shell.state = ShellState::Open;
    shell.engine = Some(EngineSession::start(EngineClockMode::Real));
    shell
}

#[test]
fn a_cycle_polls_both_lanes_before_the_open_deadline() {
    let mut cycle = OwnerLoop::new();
    assert_eq!(cycle.received(Receipt::Empty), OwnerAction::PollControl);
    assert_eq!(
        cycle.control_polled(false, Some(9_000)),
        OwnerAction::PollNavigation
    );
    assert_eq!(
        cycle.navigation_polled(true, Some(8_000)),
        OwnerAction::ServeOpenDeadline
    );
    assert!(cycle.progressed);
    assert!(cycle.inbox_empty);
    assert_eq!(cycle.deadline, Some(8_000));
    assert_eq!(cycle.open_deadline_served(false), OwnerAction::ConsiderPump);
}

#[test]
fn an_open_that_timed_out_begins_a_new_cycle() {
    let mut cycle = OwnerLoop::new();
    cycle.received(Receipt::Eof);
    cycle.control_polled(true, Some(5));
    cycle.navigation_polled(false, None);
    assert_eq!(cycle.open_deadline_served(true), OwnerAction::Receive);
    assert!(cycle.input_closed);
    assert!(!cycle.progressed);
    assert_eq!(cycle.deadline, None);
    assert_eq!(cycle.pass, Pass::BeforePump);
}

#[test]
fn a_pump_is_followed_by_another_poll_of_both_lanes() {
    let shell = real_shell();
    let mut cycle = OwnerLoop::new();
    assert_eq!(cycle.consider_pump(&shell, 7), OwnerAction::ServeHostWait);
    assert_eq!(cycle.consider_pump(&shell, 8), OwnerAction::Pump);
    assert_eq!(cycle.pumped(), OwnerAction::PollControl);
    assert_eq!(cycle.control_polled(false, None), OwnerAction::PollNavigation);
    assert_eq!(
        cycle.navigation_polled(false, None),
        OwnerAction::ServeOpenDeadline
    );
    assert_eq!(
        cycle.open_deadline_served(false),
        OwnerAction::ServeHostWait
    );
    assert_eq!(cycle.host_wait_served(true), OwnerAction::PollControl);
    assert!(cycle.progressed);
    assert_eq!(
        cycle.control_polled(false, Some(4_000)),
        OwnerAction::EndCycle
    );
    assert_eq!(cycle.deadline, Some(4_000));
}

#[test]
fn an_engine_that_was_pumped_waits_for_its_next_wake() {
    let mut shell = real_shell();
    assert!(shell.wants_pump(8));
    shell.pumped(8);
    assert!(!shell.wants_pump(8));
    assert!(shell.wants_pump(9));
    shell.engine = None;
    assert!(!shell.wants_pump(9));
}

#[test]
fn only_a_quiet_cycle_sleeps() {
    let shell = real_shell();
    let mut cycle = OwnerLoop::new();
    cycle.received(Receipt::Empty);
    cycle.control_polled(false, Some(5_000));
    assert_eq!(
        cycle.cycle_ended(&shell, false, NOW),
        OwnerAction::Sleep { until: 5_000 }
    );
    assert_eq!(cycle.slept(), OwnerAction::Receive);
    assert_eq!(cycle, OwnerLoop::new());

    cycle.received(Receipt::Empty);
    assert_eq!(
        cycle.cycle_ended(&shell, false, NOW),
        OwnerAction::Sleep {
            until: NOW + OWNER_LOOP_SAFETY_TIMEOUT_NS
        }
    );
    assert_eq!(cycle.cycle_ended(&shell, true, NOW), OwnerAction::Receive);

    cycle.received(Receipt::Handled { closed: false });
    assert_eq!(cycle.cycle_ended(&shell, false, NOW), OwnerAction::Receive);
}

#[test]
fn the_loop_ends_when_closed_or_drained() {
    let shell = real_shell();
    let mut cycle = OwnerLoop::new();
    assert_eq!(
        cycle.received(Receipt::Handled { closed: true }),
        OwnerAction::Stop
    );

    let mut cycle = OwnerLoop::new();
    cycle.received(Receipt::Eof);
    // What is still queued is received first.
    assert_eq!(cycle.cycle_ended(&shell, false, NOW), OwnerAction::Receive);
    assert_eq!(
        cycle.received(Receipt::Disconnected),
        OwnerAction::PollControl
    );
    assert_eq!(cycle.cycle_ended(&shell, false, NOW), OwnerAction::Drain);
}
