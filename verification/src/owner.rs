//! The owner loop: in which order a cycle receives, polls, pumps and waits, and when it may sleep.

use vstd::prelude::*;

use crate::profile::{earliest, earliest_deadline};
use crate::session::pump_wanted;
use crate::settle::suppresses_pump;
use crate::shell::Shell;
use crate::shell_poll::sleep_deadline;

verus! {

/// What one attempt to receive from the reader led to.
#[derive(Clone, Copy, Debug, PartialEq, Eq, Structural)]
pub enum Receipt {
    /// A message was handled; `closed` where it closed the shell.
    Handled { closed: bool },
    /// The input has ended.
    Eof,
    Empty,
    Disconnected,
}

/// How far a cycle has come: before the engine was pumped, after it, or after a wait was served.
#[derive(Clone, Copy, Debug, PartialEq, Eq, Structural)]
pub enum Pass {
    BeforePump,
    AfterPump,
    AfterWait,
}

/// What the owner does next.
#[derive(Clone, Copy, Debug, PartialEq, Eq, Structural)]
pub enum OwnerAction {
    /// Note the wakes so far, and take one message from the reader.
    Receive,
    PollControl,
    PollNavigation,
    ServeOpenDeadline,
    /// Note the wakes, and ask whether the engine is to be pumped.
    ConsiderPump,
    Pump,
    ServeHostWait,
    /// Ask how the cycle ends, with the wakes that came during it.
    EndCycle,
    Sleep { until: u64 },
    /// Drop the engine and end.
    Drain,
    /// End; the shell is closed.
    Stop,
}

/// One cycle of the owner loop.
#[derive(Clone, Copy, Debug, PartialEq, Eq, Structural)]
pub struct OwnerLoop {
    pub pass: Pass,
    pub input_closed: bool,
    pub inbox_empty: bool,
    pub progressed: bool,
    /// The earliest deadline of an operation that was found in flight.
    pub deadline: Option<u64>,
}

/// The start of a cycle.
pub open spec fn cycle_started(input_closed: bool) -> OwnerLoop {
    OwnerLoop {
        pass: Pass::BeforePump,
        input_closed,
        inbox_empty: false,
        progressed: false,
        deadline: None,
    }
}

/// The cycle after a message was taken, or none was there.
pub open spec fn after_receipt(cycle: OwnerLoop, receipt: Receipt) -> (OwnerLoop, OwnerAction) {
    (
        OwnerLoop {
            input_closed: cycle.input_closed || receipt is Eof || receipt is Disconnected,
            inbox_empty: receipt is Empty || receipt is Disconnected,
            progressed: cycle.progressed || receipt is Handled || receipt is Eof,
            ..cycle
        },
        if receipt == (Receipt::Handled { closed: true }) {
            OwnerAction::Stop
        } else {
            OwnerAction::PollControl
        },
    )
}

/// The cycle after the document-control lane was polled.
pub open spec fn after_control(cycle: OwnerLoop, progressed: bool, deadline: Option<u64>) -> (
    OwnerLoop,
    OwnerAction,
) {
    (
        OwnerLoop {
            progressed: cycle.progressed || progressed,
            deadline: earliest(cycle.deadline, deadline),
            ..cycle
        },
        if cycle.pass == Pass::AfterWait {
            OwnerAction::EndCycle
        } else {
            OwnerAction::PollNavigation
        },
    )
}

/// The cycle after the session-navigation lane was polled.
pub open spec fn after_navigation(cycle: OwnerLoop, progressed: bool, deadline: Option<u64>) -> (
    OwnerLoop,
    OwnerAction,
) {
    (
        OwnerLoop {
            progressed: cycle.progressed || progressed,
            deadline: earliest(cycle.deadline, deadline),
            ..cycle
        },
        OwnerAction::ServeOpenDeadline,
    )
}

/// The cycle after the deadline of an open was looked at. Where the open has timed out, a new cycle
/// begins.
pub open spec fn after_open_deadline(cycle: OwnerLoop, timed_out: bool) -> (
    OwnerLoop,
    OwnerAction,
) {
    if timed_out {
        (cycle_started(cycle.input_closed), OwnerAction::Receive)
    } else if cycle.pass == Pass::BeforePump {
        (cycle, OwnerAction::ConsiderPump)
    } else {
        (cycle, OwnerAction::ServeHostWait)
    }
}

/// The cycle after a wait of the active request was looked at.
pub open spec fn after_host_wait(cycle: OwnerLoop, served: bool) -> (OwnerLoop, OwnerAction) {
    if served {
        (
            OwnerLoop { pass: Pass::AfterWait, progressed: true, ..cycle },
            OwnerAction::PollControl,
        )
    } else {
        (cycle, OwnerAction::EndCycle)
    }
}

/// Whether everything that was accepted is answered and nothing more can come.
pub open spec fn drained_out(cycle: OwnerLoop, shell: Shell) -> bool {
    cycle.input_closed && cycle.inbox_empty && shell.active is None
}

/// The end of a cycle: the loop ends, goes on at once, or sleeps.
pub open spec fn after_cycle(cycle: OwnerLoop, shell: Shell, woken: bool, now: u64) -> (
    OwnerLoop,
    OwnerAction,
) {
    if drained_out(cycle, shell) {
        (cycle, OwnerAction::Drain)
    } else if cycle.progressed || woken {
        (cycle_started(cycle.input_closed), OwnerAction::Receive)
    } else {
        (cycle, OwnerAction::Sleep { until: sleep_deadline(shell, cycle.deadline, now) })
    }
}

impl OwnerLoop {
    /// The first cycle.
    pub fn new() -> (cycle: Self)
        ensures
            cycle == cycle_started(false),
    {
        OwnerLoop {
            pass: Pass::BeforePump,
            input_closed: false,
            inbox_empty: false,
            progressed: false,
            deadline: None,
        }
    }

    fn restart(&mut self)
        ensures
            *final(self) == cycle_started(old(self).input_closed),
    {
        self.pass = Pass::BeforePump;
        self.inbox_empty = false;
        self.progressed = false;
        self.deadline = None;
    }

    /// Takes up what receiving led to.
    pub fn received(&mut self, receipt: Receipt) -> (action: OwnerAction)
        ensures
            (*final(self), action) == after_receipt(*old(self), receipt),
    {
        let mut closes = false;
        self.inbox_empty = false;
        match receipt {
            Receipt::Handled { closed } => {
                self.progressed = true;
                closes = closed;
            },
            Receipt::Eof => {
                self.progressed = true;
                self.input_closed = true;
            },
            Receipt::Empty => {
                self.inbox_empty = true;
            },
            Receipt::Disconnected => {
                self.input_closed = true;
                self.inbox_empty = true;
            },
        }
        if closes {
            OwnerAction::Stop
        } else {
            OwnerAction::PollControl
        }
    }

    /// Takes up whether the document-control lane got on, and when its operation times out.
    pub fn control_polled(&mut self, progressed: bool, deadline: Option<u64>) -> (action:
        OwnerAction)
        ensures
            (*final(self), action) == after_control(*old(self), progressed, deadline),
    {
        self.progressed = self.progressed || progressed;
        self.deadline = earliest_deadline(self.deadline, deadline);
        match self.pass {
            Pass::AfterWait => OwnerAction::EndCycle,
            _ => OwnerAction::PollNavigation,
        }
    }

    /// Takes up whether the session-navigation lane got on, and when its operation times out.
    pub fn navigation_polled(&mut self, progressed: bool, deadline: Option<u64>) -> (action:
        OwnerAction)
        ensures
            (*final(self), action) == after_navigation(*old(self), progressed, deadline),
    {
        self.progressed = self.progressed || progressed;
        self.deadline = earliest_deadline(self.deadline, deadline);
        OwnerAction::ServeOpenDeadline
    }

    /// Takes up whether an open has timed out.
    pub fn open_deadline_served(&mut self, timed_out: bool) -> (action: OwnerAction)
        ensures
            (*final(self), action) == after_open_deadline(*old(self), timed_out),
    {
        if timed_out {
            self.restart();
            return OwnerAction::Receive;
        }
        match self.pass {
            Pass::BeforePump => OwnerAction::ConsiderPump,
            _ => OwnerAction::ServeHostWait,
        }
    }

    /// Decides whether the engine is pumped, where its wake generation is `current`.
    pub fn consider_pump(&self, shell: &Shell, current: u64) -> (action: OwnerAction)
        ensures
            action == if pump_wanted(*shell, current) {
                OwnerAction::Pump
            } else {
                OwnerAction::ServeHostWait
            },
    {
        if shell.wants_pump(current) {
            OwnerAction::Pump
        } else {
            OwnerAction::ServeHostWait
        }
    }

    /// Notes that the engine was pumped: both lanes are polled again.
    pub fn pumped(&mut self) -> (action: OwnerAction)
        ensures
            *final(self) == (OwnerLoop { pass: Pass::AfterPump, ..*old(self) }),
            action == OwnerAction::PollControl,
    {
        self.pass = Pass::AfterPump;
        OwnerAction::PollControl
    }

    /// Takes up whether a wait of the active request was served.
    pub fn host_wait_served(&mut self, served: bool) -> (action: OwnerAction)
        ensures
            (*final(self), action) == after_host_wait(*old(self), served),
    {
        if served {
            self.pass = Pass::AfterWait;
            self.progressed = true;
            OwnerAction::PollControl
        } else {
            OwnerAction::EndCycle
        }
    }

    /// Ends the cycle; `woken` says whether a wake came during it.
    pub fn cycle_ended(&mut self, shell: &Shell, woken: bool, now: u64) -> (action: OwnerAction)
        ensures
            (*final(self), action) == after_cycle(*old(self), *shell, woken, now),
    {
        if shell.is_drained(self.input_closed, self.inbox_empty) {
            return OwnerAction::Drain;
        }
        if self.progressed || woken {
            self.restart();
            return OwnerAction::Receive;
        }
        OwnerAction::Sleep { until: shell.next_wait_deadline(self.deadline, now) }
    }

    /// Begins the next cycle after a sleep.
    pub fn slept(&mut self) -> (action: OwnerAction)
        ensures
            *final(self) == cycle_started(old(self).input_closed),
            action == OwnerAction::Receive,
    {
        self.restart();
        OwnerAction::Receive
    }
}

/// A response that is ready at the deadline of an open still counts: from the receipt of a message
/// on, both lanes are polled before that deadline is looked at. Nothing that was found on the way is
/// lost.
pub proof fn law_both_lanes_are_polled_before_the_open_deadline(
    cycle: OwnerLoop,
    receipt: Receipt,
    control: (bool, Option<u64>),
    navigation: (bool, Option<u64>),
)
    requires
        cycle == cycle_started(cycle.input_closed),
        receipt != (Receipt::Handled { closed: true }),
    ensures
        ({
            let (received, first) = after_receipt(cycle, receipt);
            let (polled, second) = after_control(received, control.0, control.1);
            let (both, third) = after_navigation(polled, navigation.0, navigation.1);
            &&& first == OwnerAction::PollControl
            &&& second == OwnerAction::PollNavigation
            &&& third == OwnerAction::ServeOpenDeadline
            &&& both.progressed == (receipt is Handled || receipt is Eof || control.0
                || navigation.0)
            &&& both.deadline == earliest(control.1, navigation.1)
        }),
{
}

/// After a pump both lanes are polled again and the deadline of an open is looked at again, before
/// a wait is served.
pub proof fn law_a_pump_is_followed_by_another_poll(
    cycle: OwnerLoop,
    control: (bool, Option<u64>),
    navigation: (bool, Option<u64>),
)
    requires
        cycle.pass == Pass::BeforePump,
    ensures
        ({
            let pumped = OwnerLoop { pass: Pass::AfterPump, ..cycle };
            let (polled, first) = after_control(pumped, control.0, control.1);
            let (both, second) = after_navigation(polled, navigation.0, navigation.1);
            &&& after_open_deadline(cycle, false).1 == OwnerAction::ConsiderPump
            &&& first == OwnerAction::PollNavigation
            &&& second == OwnerAction::ServeOpenDeadline
            &&& after_open_deadline(both, false).1 == OwnerAction::ServeHostWait
        }),
{
}

/// The loop sleeps only after a cycle in which nothing progressed and no wake came, and while
/// something can still come or is still active. It then sleeps past no deadline that it found.
pub proof fn law_only_a_quiet_cycle_sleeps(
    cycle: OwnerLoop,
    shell: Shell,
    woken: bool,
    now: u64,
)
    ensures
        after_cycle(cycle, shell, woken, now).1 is Sleep <==> !cycle.progressed && !woken
            && !drained_out(cycle, shell),
        after_cycle(cycle, shell, woken, now).1 matches OwnerAction::Sleep { until } ==> (
        cycle.deadline matches Some(deadline) ==> until <= deadline),
{
}

/// An accepted request is answered before the loop ends of itself: at the end of a cycle it ends
/// exactly where the input has ended, nothing is queued and nothing is active.
pub proof fn law_the_loop_drains_before_it_ends(
    cycle: OwnerLoop,
    shell: Shell,
    woken: bool,
    now: u64,
)
    ensures
        after_cycle(cycle, shell, woken, now).1 == OwnerAction::Drain <==> drained_out(
            cycle,
            shell,
        ),
        after_cycle(cycle, shell, woken, now).1 != OwnerAction::Stop,
{
}

/// While an active request suppresses the pump, the engine is not pumped, whatever wakes come.
pub proof fn law_a_bracket_is_not_pumped(shell: Shell, current: u64)
    requires
        shell.active is Some,
        suppresses_pump(shell.active->0.operation),
    ensures
        !pump_wanted(shell, current),
{
}

} // verus!
