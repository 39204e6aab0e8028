//! The signal guard: how the host reacts to termination signals and console
//! events. The first delivery runs the emergency cleanup; any later one
//! exits at once, so that shutdown cannot hang on a re-entered handler.

use vstd::prelude::*;

verus! {

/// A host termination signal.
#[derive(Clone, Copy, Debug, PartialEq, Eq, Structural)]
pub enum HostSignal {
    Interrupt,
    Terminate,
    Quit,
    Abort,
    Other,
}

impl HostSignal {
    /// The conventional name of the signal.
    pub fn name(&self) -> (r: &'static str)
        ensures
            r@ == (match *self {
                HostSignal::Interrupt => "SIGINT"@,
                HostSignal::Terminate => "SIGTERM"@,
                HostSignal::Quit => "SIGQUIT"@,
                HostSignal::Abort => "SIGABRT"@,
                HostSignal::Other => "UNKNOWN"@,
            }),
    {
        match self {
            HostSignal::Interrupt => "SIGINT",
            HostSignal::Terminate => "SIGTERM",
            HostSignal::Quit => "SIGQUIT",
            HostSignal::Abort => "SIGABRT",
            HostSignal::Other => "UNKNOWN",
        }
    }
}

/// A console control event, by its numeric code.
#[derive(Clone, Copy, Debug, PartialEq, Eq, Structural)]
pub enum ConsoleEvent {
    CtrlC,
    CtrlBreak,
    Close,
    Logoff,
    Shutdown,
    Unknown(u32),
}

impl ConsoleEvent {
    /// The event with control code `code`.
    pub fn from_code(code: u32) -> (r: ConsoleEvent)
        ensures
            r == (if code == 0 {
                ConsoleEvent::CtrlC
            } else if code == 1 {
                ConsoleEvent::CtrlBreak
            } else if code == 2 {
                ConsoleEvent::Close
            } else if code == 5 {
                ConsoleEvent::Logoff
            } else if code == 6 {
                ConsoleEvent::Shutdown
            } else {
                ConsoleEvent::Unknown(code)
            }),
    {
        if code == 0 {
            ConsoleEvent::CtrlC
        } else if code == 1 {
            ConsoleEvent::CtrlBreak
        } else if code == 2 {
            ConsoleEvent::Close
        } else if code == 5 {
            ConsoleEvent::Logoff
        } else if code == 6 {
            ConsoleEvent::Shutdown
        } else {
            ConsoleEvent::Unknown(code)
        }
    }
}

/// What to do on a delivery.
#[derive(Clone, Copy, Debug, PartialEq, Eq, Structural)]
pub enum GuardAction {
    /// Kill the process group, then let the host terminate.
    EmergencyCleanup,
    /// Exit immediately, without further cleanup.
    ExitNow,
}

pub open spec fn action_for(already_received: bool) -> GuardAction {
    if already_received {
        GuardAction::ExitNow
    } else {
        GuardAction::EmergencyCleanup
    }
}

/// The action for a delivery, given the previous value of the
/// "already received" flag (as returned by an atomic swap that sets it).
pub fn action_for_delivery(already_received: bool) -> (r: GuardAction)
    ensures
        r == action_for(already_received),
{
    if already_received {
        GuardAction::ExitNow
    } else {
        GuardAction::EmergencyCleanup
    }
}

/// The one-shot flag of the guard.
pub struct SignalGuard {
    received: bool,
}

impl SignalGuard {
    pub closed spec fn spec_received(&self) -> bool {
        self.received
    }

    /// A guard that has seen no delivery.
    pub fn new() -> (r: SignalGuard)
        ensures
            !r.spec_received(),
    {
        SignalGuard { received: false }
    }

    /// Records a delivery and says what to do about it.
    pub fn on_delivery(&mut self) -> (r: GuardAction)
        ensures
            final(self).spec_received(),
            r == action_for(old(self).spec_received()),
    {
        let previous = self.received;
        self.received = true;
        action_for_delivery(previous)
    }
}

/// The actions for `n` deliveries to a fresh guard.
pub open spec fn delivery_actions(received: bool, n: nat) -> Seq<GuardAction>
    decreases n,
{
    if n == 0 {
        seq![]
    } else {
        seq![action_for(received)] + delivery_actions(true, (n - 1) as nat)
    }
}

/// Of any number of deliveries, only the first runs the cleanup; every later
/// one exits at once.
pub proof fn lemma_cleanup_runs_once(n: nat)
    ensures
        delivery_actions(false, n).len() == n,
        forall|i: int|
            0 <= i < n ==> #[trigger] delivery_actions(false, n)[i] == (if i == 0 {
                GuardAction::EmergencyCleanup
            } else {
                GuardAction::ExitNow
            }),
{
    if n > 0 {
        lemma_later_deliveries_exit((n - 1) as nat);
    }
}

/// A guard that has seen a delivery exits on every later one.
pub proof fn lemma_later_deliveries_exit(n: nat)
    ensures
        delivery_actions(true, n).len() == n,
        forall|i: int| 0 <= i < n ==> #[trigger] delivery_actions(true, n)[i] == GuardAction::ExitNow,
    decreases n,
{
    if n > 0 {
        lemma_later_deliveries_exit((n - 1) as nat);
    }
}

} // verus!
