//! The terminator: which signals reach a stopped process and its
//! descendants. Both platforms' strategies are plans of the same shape; the
//! caller carries each step out and then reaps the direct child.

use vstd::prelude::*;

verus! {

/// The two ways of reaching a process's descendants.
#[derive(Clone, Copy, Debug, PartialEq, Eq, Structural)]
pub enum Platform {
    /// Signals sent with kill(2), to the process group as well as the child.
    Posix,
    /// The process tree is ended with a tree-kill utility.
    Windows,
}

/// A termination signal: a graceful request or a forceful kill.
#[derive(Clone, Copy, Debug, PartialEq, Eq, Structural)]
pub enum Signal {
    Terminate,
    Kill,
}

/// One step of a termination plan.
#[derive(Clone, Copy, Debug, PartialEq, Eq, Structural)]
pub enum KillStep {
    /// kill(2) with this target: a negative target names a process group.
    Send { target: i32, signal: Signal },
    /// Forcefully end the process tree rooted at this pid.
    KillTree { pid: u32 },
}

/// A pid that kill(2) can name, both as a process and as a group: not 0
/// (the caller's own group), not 1 (as a group, -1 names every process),
/// and small enough to be negated as an `i32`.
pub open spec fn addressable(pid: u32) -> bool {
    1 < pid && pid <= i32::MAX
}

pub open spec fn group_step(pid: u32, signal: Signal) -> KillStep {
    KillStep::Send { target: -(pid as int) as i32, signal }
}

pub open spec fn process_step(pid: u32, signal: Signal) -> KillStep {
    KillStep::Send { target: pid as i32, signal }
}

/// The steps that follow the direct kill of the child when it is stopped on
/// request. On Posix, after a successful direct kill the group still gets a
/// graceful request, so that descendants are reclaimed, and after a failed
/// one the group and the child are killed forcefully. On Windows the process
/// tree is ended either way.
pub open spec fn stop_plan(platform: Platform, pid: u32, direct_kill_ok: bool) -> Seq<KillStep> {
    match platform {
        Platform::Posix => if !addressable(pid) {
            seq![]
        } else if direct_kill_ok {
            seq![group_step(pid, Signal::Terminate)]
        } else {
            seq![group_step(pid, Signal::Kill), process_step(pid, Signal::Kill)]
        },
        Platform::Windows => seq![KillStep::KillTree { pid }],
    }
}

/// The steps that follow the direct kill when the supervisor is torn down:
/// the group and the child are always killed forcefully.
pub open spec fn forced_plan(platform: Platform, pid: u32) -> Seq<KillStep> {
    match platform {
        Platform::Posix => if !addressable(pid) {
            seq![]
        } else {
            seq![group_step(pid, Signal::Kill), process_step(pid, Signal::Kill)]
        },
        Platform::Windows => seq![KillStep::KillTree { pid }],
    }
}

/// Every step reaches only `pid`, as a process or as its group: never the
/// caller's own group (target 0) nor every process (target -1).
pub open spec fn confined_to(steps: Seq<KillStep>, pid: u32) -> bool {
    forall|i: int|
        0 <= i < steps.len() ==> match #[trigger] steps[i] {
            KillStep::Send { target, .. } => target != 0 && target != -1 && (target == pid
                || target == -(pid as int)),
            KillStep::KillTree { pid: p } => p == pid,
        }
}

/// The kill(2) target that names the process group led by `pid`.
fn group_target(pid: u32) -> (r: i32)
    requires
        addressable(pid),
    ensures
        r == -(pid as int),
{
    let p: i32 = pid as i32;
    -p
}

/// The terminator of one platform.
#[derive(Clone, Copy, Debug, PartialEq, Eq, Structural)]
pub struct Terminator {
    pub platform: Platform,
}

impl Terminator {
    pub fn new(platform: Platform) -> (r: Terminator)
        ensures
            r.platform == platform,
    {
        Terminator { platform }
    }

    /// The steps after the direct kill of the child on a requested stop.
    pub fn stop_steps(&self, pid: u32, direct_kill_ok: bool) -> (r: Vec<KillStep>)
        ensures
            r@ == stop_plan(self.platform, pid, direct_kill_ok),
            confined_to(r@, pid),
    {
        proof {
            lemma_plans_confined(self.platform, pid, direct_kill_ok);
        }
        let mut steps: Vec<KillStep> = Vec::new();
        match self.platform {
            Platform::Posix => {
                if 1 < pid && pid <= 0x7fff_ffffu32 {
                    let group = group_target(pid);
                    if direct_kill_ok {
                        steps.push(KillStep::Send { target: group, signal: Signal::Terminate });
                    } else {
                        steps.push(KillStep::Send { target: group, signal: Signal::Kill });
                        steps.push(KillStep::Send { target: pid as i32, signal: Signal::Kill });
                    }
                }
            },
            Platform::Windows => {
                steps.push(KillStep::KillTree { pid });
            },
        }
        assert(steps@ =~= stop_plan(self.platform, pid, direct_kill_ok));
        steps
    }

    /// The steps after the direct kill of the child on teardown.
    pub fn forced_steps(&self, pid: u32) -> (r: Vec<KillStep>)
        ensures
            r@ == forced_plan(self.platform, pid),
            confined_to(r@, pid),
    {
        proof {
            lemma_plans_confined(self.platform, pid, true);
        }
        let mut steps: Vec<KillStep> = Vec::new();
        match self.platform {
            Platform::Posix => {
                if 1 < pid && pid <= 0x7fff_ffffu32 {
                    steps.push(KillStep::Send { target: group_target(pid), signal: Signal::Kill });
                    steps.push(KillStep::Send { target: pid as i32, signal: Signal::Kill });
                }
            },
            Platform::Windows => {
                steps.push(KillStep::KillTree { pid });
            },
        }
        assert(steps@ =~= forced_plan(self.platform, pid));
        steps
    }
}

/// No plan of either platform reaches anything but the stopped pid and its
/// group: a stale or reserved pid gets no signal at all.
pub proof fn lemma_plans_confined(platform: Platform, pid: u32, direct_kill_ok: bool)
    ensures
        confined_to(stop_plan(platform, pid, direct_kill_ok), pid),
        confined_to(forced_plan(platform, pid), pid),
{
    if addressable(pid) {
        assert(-(pid as int) as i32 == -(pid as int));
        assert(pid as i32 == pid as int);
    }
}

} // verus!
