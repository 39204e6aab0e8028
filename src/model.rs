//! The values that the supervisor reports and keeps: its status, its
//! configuration, and one relayed line of output.

use vstd::prelude::*;

verus! {

/// The port used when neither the caller nor the configuration names one.
pub const DEFAULT_PORT: u16 = 8000;

/// What the supervisor reports about its process.
#[derive(Clone, Copy, Debug, PartialEq, Eq, Structural)]
pub struct ServerStatus {
    pub running: bool,
    pub pid: Option<u32>,
    pub port: Option<u16>,
}

impl ServerStatus {
    /// pid and port are present exactly when the process is running.
    pub open spec fn wf(self) -> bool {
        &&& self.pid is Some <==> self.running
        &&& self.port is Some <==> self.running
    }

    pub open spec fn spec_idle() -> ServerStatus {
        ServerStatus { running: false, pid: None, port: None }
    }

    pub open spec fn spec_running(pid: u32, port: u16) -> ServerStatus {
        ServerStatus { running: true, pid: Some(pid), port: Some(port) }
    }

    /// The status of a supervisor with no process.
    pub fn idle() -> (r: ServerStatus)
        ensures
            r == ServerStatus::spec_idle(),
    {
        ServerStatus { running: false, pid: None, port: None }
    }
}

/// The persisted configuration of the supervisor.
#[derive(Clone, Debug)]
pub struct ServerConfig {
    pub working_directory: Option<String>,
    pub default_port: u16,
}

/// The configuration as plain values.
pub struct ConfigView {
    pub working_directory: Option<Seq<char>>,
    pub default_port: u16,
}

impl View for ServerConfig {
    type V = ConfigView;

    open spec fn view(&self) -> ConfigView {
        ConfigView {
            working_directory: match self.working_directory {
                Some(d) => Some(d@),
                None => None,
            },
            default_port: self.default_port,
        }
    }
}

impl ServerConfig {
    /// A copy of this configuration.
    pub fn snapshot(&self) -> (r: ServerConfig)
        ensures
            r@ == self@,
    {
        let working_directory = match &self.working_directory {
            Some(d) => Some(d.clone()),
            None => None,
        };
        ServerConfig { working_directory, default_port: self.default_port }
    }

    /// The configuration that was read, or the built-in default where reading
    /// or parsing failed.
    pub fn loaded_or_default(loaded: Option<ServerConfig>) -> (r: ServerConfig)
        ensures
            r@ == match loaded {
                Some(c) => c@,
                None => ConfigView { working_directory: None, default_port: DEFAULT_PORT },
            },
    {
        match loaded {
            Some(c) => c,
            None => ServerConfig::default(),
        }
    }
}

impl Default for ServerConfig {
    /// No working directory override and the default port.
    fn default() -> (r: ServerConfig)
        ensures
            r.working_directory is None,
            r.default_port == DEFAULT_PORT,
    {
        ServerConfig { working_directory: None, default_port: DEFAULT_PORT }
    }
}

/// One line of output, stamped with the wall-clock time it was relayed at.
#[derive(Clone, Debug)]
pub struct ServerOutput {
    pub timestamp: String,
    pub stream: String,
    pub content: String,
}

/// A relayed line as plain text values.
pub struct OutputView {
    pub timestamp: Seq<char>,
    pub stream: Seq<char>,
    pub content: Seq<char>,
}

impl View for ServerOutput {
    type V = OutputView;

    open spec fn view(&self) -> OutputView {
        OutputView {
            timestamp: self.timestamp@,
            stream: self.stream@,
            content: self.content@,
        }
    }
}

} // verus!
