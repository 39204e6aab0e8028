//! The process supervisor as a state machine. Each command is split at the
//! points where the operating system has to act: a `begin_` step decides
//! what to do, the caller does it (spawn, kill, reap), and a `finish_` step
//! records the outcome. The caller holds one lock across a whole command, so
//! no two commands interleave.

use vstd::prelude::*;
use crate::launch::LaunchPlan;
use crate::model::{ConfigView, ServerConfig, ServerStatus};

verus! {

/// How long a restart waits between the stop and the start, so that the
/// operating system releases the port the old process had bound.
pub const RESTART_SETTLE_MILLIS: u64 = 1000;

/// Where the supervisor stands in its lifecycle.
#[derive(Clone, Copy, Debug, PartialEq, Eq, Structural)]
pub enum Phase {
    /// No process, nothing in progress.
    Stopped,
    /// A launch was decided and the process is being spawned.
    Starting,
    /// A process is held and reported.
    Running,
    /// The process handle was handed to the terminator.
    Stopping,
}

/// The supervisor's state as plain values.
pub struct ManagerView {
    pub phase: Phase,
    /// The pid of the live process handle, if one is held.
    pub process: Option<u32>,
    pub status: ServerStatus,
    pub config: ConfigView,
    /// The port of the launch in progress.
    pub pending_port: u16,
}

/// The state is consistent: the status is well formed, and the handle and
/// the status agree with the phase.
pub open spec fn wf_view(v: ManagerView) -> bool {
    &&& v.status.wf()
    &&& match v.phase {
        Phase::Stopped => v.process is None && v.status == ServerStatus::spec_idle(),
        Phase::Starting => v.process is None && v.status == ServerStatus::spec_idle(),
        Phase::Running => v.status.running && v.process == v.status.pid,
        Phase::Stopping => v.process is None && v.status == ServerStatus::spec_idle(),
    }
}

/// At most one process is current: the held handle and the reported pid
/// never name two different processes.
pub open spec fn single_current(v: ManagerView) -> bool {
    v.process is Some && v.status.pid is Some ==> v.process == v.status.pid
}

/// The port a start binds: the requested one, else the configured default.
pub open spec fn start_port(v: ManagerView, port: Option<u16>) -> u16 {
    match port {
        Some(p) => p,
        None => v.config.default_port,
    }
}

pub open spec fn after_begin_start(v: ManagerView, port: Option<u16>) -> ManagerView {
    if v.status.running {
        v
    } else {
        ManagerView { phase: Phase::Starting, pending_port: start_port(v, port), ..v }
    }
}

pub open spec fn after_abort_start(v: ManagerView) -> ManagerView {
    ManagerView { phase: Phase::Stopped, ..v }
}

pub open spec fn after_finish_start(v: ManagerView, pid: u32) -> ManagerView {
    ManagerView {
        phase: Phase::Running,
        process: Some(pid),
        status: ServerStatus::spec_running(pid, v.pending_port),
        ..v
    }
}

pub open spec fn after_begin_stop(v: ManagerView) -> ManagerView {
    ManagerView { phase: Phase::Stopping, process: None, status: ServerStatus::spec_idle(), ..v }
}

pub open spec fn after_finish_stop(v: ManagerView) -> ManagerView {
    ManagerView { phase: Phase::Stopped, status: ServerStatus::spec_idle(), ..v }
}

pub open spec fn after_cleanup(v: ManagerView) -> ManagerView {
    ManagerView { phase: Phase::Stopped, process: None, status: ServerStatus::spec_idle(), ..v }
}

/// A port conflict reported by the reader of process `source` tears that
/// process down; a report about any other process changes nothing.
pub open spec fn after_port_conflict(v: ManagerView, source: u32) -> ManagerView {
    if v.process == Some(source) {
        after_cleanup(v)
    } else {
        v
    }
}

/// The configuration in memory changes only once it has been persisted.
pub open spec fn after_set_config(v: ManagerView, config: ConfigView, persisted: bool) -> ManagerView {
    if persisted {
        ManagerView { config, ..v }
    } else {
        v
    }
}

/// What `begin_start` decided.
#[derive(Clone, Debug)]
pub enum StartPlan {
    /// A process is already running: this is its unchanged status.
    AlreadyRunning(ServerStatus),
    /// Launch a process as planned.
    Launch(LaunchPlan),
}

/// The supervisor of one service process.
pub struct ServerManager {
    phase: Phase,
    process: Option<u32>,
    status: ServerStatus,
    config: ServerConfig,
    pending_port: u16,
}

impl View for ServerManager {
    type V = ManagerView;

    closed spec fn view(&self) -> ManagerView {
        ManagerView {
            phase: self.phase,
            process: self.process,
            status: self.status,
            config: self.config@,
            pending_port: self.pending_port,
        }
    }
}

impl ServerManager {
    pub open spec fn wf(&self) -> bool {
        wf_view(self@)
    }

    /// A stopped supervisor with the configuration that was loaded.
    pub fn new(config: ServerConfig) -> (r: ServerManager)
        ensures
            r.wf(),
            r@.phase == Phase::Stopped,
            r@.process is None,
            r@.status == ServerStatus::spec_idle(),
            r@.config == config@,
    {
        ServerManager {
            phase: Phase::Stopped,
            process: None,
            status: ServerStatus::idle(),
            config,
            pending_port: 0,
        }
    }

    /// Where the supervisor stands.
    pub fn phase(&self) -> (r: Phase)
        ensures
            r == self@.phase,
    {
        self.phase
    }

    /// The current status.
    pub fn status(&self) -> (r: ServerStatus)
        ensures
            r == self@.status,
    {
        self.status
    }

    /// A copy of the configuration in memory.
    pub fn config(&self) -> (r: ServerConfig)
        ensures
            r@ == self@.config,
    {
        self.config.snapshot()
    }

    /// Decides a start. With a process running, the start is a no-op that
    /// returns the unchanged status; otherwise a launch is planned on the
    /// requested port, else the configured one.
    pub fn begin_start(&mut self, port: Option<u16>) -> (r: StartPlan)
        requires
            old(self).wf(),
        ensures
            final(self).wf(),
            final(self)@ == after_begin_start(old(self)@, port),
            old(self)@.status.running ==> r == StartPlan::AlreadyRunning(old(self)@.status),
            !old(self)@.status.running ==> (r matches StartPlan::Launch(plan) && plan.port
                == start_port(old(self)@, port) && (match plan.working_directory {
                Some(d) => old(self)@.config.working_directory == Some(d@),
                None => old(self)@.config.working_directory is None,
            })),
    {
        if self.status.running {
            return StartPlan::AlreadyRunning(self.status);
        }
        let p = match port {
            Some(p) => p,
            None => self.config.default_port,
        };
        let working_directory = match &self.config.working_directory {
            Some(d) => Some(d.clone()),
            None => None,
        };
        self.phase = Phase::Starting;
        self.pending_port = p;
        StartPlan::Launch(LaunchPlan { port: p, working_directory })
    }

    /// The launch failed before a process ran: nothing is left running.
    pub fn abort_start(&mut self)
        requires
            old(self).wf(),
            old(self)@.phase == Phase::Starting,
        ensures
            final(self).wf(),
            final(self)@ == after_abort_start(old(self)@),
    {
        self.phase = Phase::Stopped;
    }

    /// The process `pid` was spawned: it is recorded and reported running on
    /// the planned port.
    pub fn finish_start(&mut self, pid: u32) -> (r: ServerStatus)
        requires
            old(self).wf(),
            old(self)@.phase == Phase::Starting,
        ensures
            final(self).wf(),
            final(self)@ == after_finish_start(old(self)@, pid),
            r == final(self)@.status,
    {
        self.phase = Phase::Running;
        self.process = Some(pid);
        self.status = ServerStatus { running: true, pid: Some(pid), port: Some(self.pending_port) };
        self.status
    }

    /// Takes the process handle out for the terminator; `None` means there
    /// is nothing to kill. The handle and the reported pid leave together,
    /// so the stopped process is no longer current.
    pub fn begin_stop(&mut self) -> (r: Option<u32>)
        requires
            old(self).wf(),
        ensures
            final(self).wf(),
            final(self)@ == after_begin_stop(old(self)@),
            r == old(self)@.process,
    {
        let taken = self.process;
        self.process = None;
        self.status = ServerStatus::idle();
        self.phase = Phase::Stopping;
        taken
    }

    /// The terminator is done: the idle status is returned.
    pub fn finish_stop(&mut self) -> (r: ServerStatus)
        requires
            old(self).wf(),
            old(self)@.phase == Phase::Stopping,
        ensures
            final(self).wf(),
            final(self)@ == after_finish_stop(old(self)@),
            r == ServerStatus::spec_idle(),
    {
        self.phase = Phase::Stopped;
        self.status = ServerStatus::idle();
        self.status
    }

    /// Teardown on exit or window close: the handle, if any, is taken for a
    /// forced kill and the status is reset.
    pub fn cleanup(&mut self) -> (r: Option<u32>)
        requires
            old(self).wf(),
        ensures
            final(self).wf(),
            final(self)@ == after_cleanup(old(self)@),
            r == old(self)@.process,
    {
        let taken = self.process;
        self.process = None;
        self.phase = Phase::Stopped;
        self.status = ServerStatus::idle();
        taken
    }

    /// The error-stream reader of process `source` saw a port conflict. If
    /// that process is the current one, it is taken for killing and the
    /// status is reset.
    pub fn on_port_conflict(&mut self, source: u32) -> (r: Option<u32>)
        requires
            old(self).wf(),
        ensures
            final(self).wf(),
            final(self)@ == after_port_conflict(old(self)@, source),
            r == (if old(self)@.process == Some(source) {
                Some(source)
            } else {
                None
            }),
    {
        if self.process == Some(source) {
            self.cleanup()
        } else {
            None
        }
    }

    /// Swaps in `config` once `persisted` shows it was written to the store;
    /// a failed write leaves memory as it was and is reported.
    pub fn set_config(&mut self, config: ServerConfig, persisted: Result<(), String>) -> (r: Result<
        ServerConfig,
        String,
    >)
        requires
            old(self).wf(),
        ensures
            final(self).wf(),
            final(self)@ == after_set_config(old(self)@, config@, persisted is Ok),
            match persisted {
                Ok(_) => r matches Ok(c) && c@ == config@,
                Err(e) => r matches Err(m) && m@ == e@,
            },
    {
        match persisted {
            Ok(()) => {
                let copy = config.snapshot();
                self.config = config;
                Ok(copy)
            },
            Err(e) => Err(e),
        }
    }
}

/// In every consistent state at most one process is current.
pub proof fn lemma_single_current(v: ManagerView)
    requires
        wf_view(v),
    ensures
        single_current(v),
{
}

/// A start while a process runs changes nothing: the state stays as it was,
/// so no second process is launched.
pub proof fn lemma_start_while_running_is_noop(v: ManagerView, port: Option<u16>)
    requires
        wf_view(v),
        v.status.running,
    ensures
        after_begin_start(v, port) == v,
{
}

/// Starting twice is starting once: after a start on a stopped supervisor,
/// a second start with any port leaves the first start's state as it was.
pub proof fn lemma_second_start_is_noop(v: ManagerView, first: Option<u16>, second: Option<u16>, pid: u32)
    requires
        wf_view(v),
        !v.status.running,
    ensures
        ({
            let started = after_finish_start(after_begin_start(v, first), pid);
            after_begin_start(started, second) == started
        }),
{
}

/// A stop with no process running finds nothing to kill and reports the
/// idle status.
pub proof fn lemma_stop_while_idle(v: ManagerView)
    requires
        wf_view(v),
        !v.status.running,
    ensures
        v.process is None,
        after_finish_stop(after_begin_stop(v)).status == ServerStatus::spec_idle(),
        wf_view(after_finish_stop(after_begin_stop(v))),
{
}

/// After a successful start on `port`, the status reports that port and the
/// pid of the spawned process.
pub proof fn lemma_start_reports_port(v: ManagerView, port: u16, pid: u32)
    requires
        wf_view(v),
        !v.status.running,
    ensures
        after_begin_start(v, Some(port)).phase == Phase::Starting,
        after_finish_start(after_begin_start(v, Some(port)), pid).status.port == Some(port),
        after_finish_start(after_begin_start(v, Some(port)), pid).status.pid == Some(pid),
        wf_view(after_finish_start(after_begin_start(v, Some(port)), pid)),
{
}

/// A restart (a full stop, then a start) passes only through states with at
/// most one current process, and the old pid is cleared before the new one
/// is recorded.
pub proof fn lemma_restart_single_current(v: ManagerView, port: Option<u16>, pid: u32)
    requires
        wf_view(v),
    ensures
        ({
            let stopping = after_begin_stop(v);
            let stopped = after_finish_stop(stopping);
            let starting = after_begin_start(stopped, port);
            let started = after_finish_start(starting, pid);
            &&& wf_view(stopping) && single_current(stopping)
            &&& wf_view(stopped) && single_current(stopped)
            &&& wf_view(starting) && single_current(starting)
            &&& wf_view(started) && single_current(started)
            &&& stopped.process is None && stopped.status.pid is None
            &&& starting.process is None && starting.status.pid is None
            &&& started.process == Some(pid) && started.status.pid == Some(pid)
        }),
{
}

/// A conflict reported by the reader of the current process leaves the
/// supervisor stopped, with pid and port cleared.
pub proof fn lemma_conflict_stops_current(v: ManagerView, source: u32)
    requires
        wf_view(v),
        v.process == Some(source),
    ensures
        !after_port_conflict(v, source).status.running,
        after_port_conflict(v, source).status.pid is None,
        after_port_conflict(v, source).status.port is None,
        after_port_conflict(v, source).process is None,
        wf_view(after_port_conflict(v, source)),
{
}

/// Memory is never ahead of the store: the configuration in memory changes
/// only after a successful write, and then to the value that was written.
pub proof fn lemma_config_follows_store(v: ManagerView, config: ConfigView, persisted: bool)
    requires
        wf_view(v),
    ensures
        !persisted ==> after_set_config(v, config, persisted) == v,
        persisted ==> after_set_config(v, config, persisted).config == config,
        wf_view(after_set_config(v, config, persisted)),
{
}

/// Tearing down a stopped supervisor, once or twice, finds no process to
/// kill and leaves the state as it was.
pub proof fn lemma_cleanup_twice_when_stopped(v: ManagerView)
    requires
        wf_view(v),
        v.phase == Phase::Stopped,
    ensures
        v.process is None,
        after_cleanup(v) == v,
        after_cleanup(v).process is None,
        after_cleanup(after_cleanup(v)) == v,
{
}

/// After any teardown a second one finds no process and changes nothing.
pub proof fn lemma_cleanup_idempotent(v: ManagerView)
    requires
        wf_view(v),
    ensures
        after_cleanup(v).process is None,
        after_cleanup(after_cleanup(v)) == after_cleanup(v),
{
}

} // verus!
