use server_supervisor::launch::LaunchError;
use server_supervisor::manager::{Phase, StartPlan, RESTART_SETTLE_MILLIS};
use server_supervisor::{greet, ServerConfig, ServerManager, ServerStatus};

fn idle() -> ServerStatus {
    ServerStatus { running: false, pid: None, port: None }
}

fn started(manager: &mut ServerManager, port: Option<u16>, pid: u32) -> ServerStatus {
    match manager.begin_start(port) {
        StartPlan::Launch(_) => manager.finish_start(pid),
        StartPlan::AlreadyRunning(s) => panic!("unexpected running status {:?}", s),
    }
}

#[test]
fn test_server_manager_creation() {
    let manager = ServerManager::new(ServerConfig::default());
    let status = manager.status();
    assert!(!status.running);
    assert!(status.pid.is_none());
    assert!(status.port.is_none());
}

#[test]
fn test_greet_function() {
    let result = greet("World");
    assert_eq!(result, "Hello, World! You've been greeted from Rust!");
}

#[test]
fn test_default_config() {
    let config = ServerConfig {
        working_directory: None,
        default_port: 8000,
    };
    assert_eq!(config.default_port, 8000);
    assert!(config.working_directory.is_none());
}

#[test]
fn default_trait_config_uses_port_8000() {
    let config = ServerConfig::default();
    assert_eq!(config.default_port, 8000);
    assert!(config.working_directory.is_none());
}

#[test]
fn loaded_config_falls_back_to_default() {
    let fallback = ServerConfig::loaded_or_default(None);
    assert_eq!(fallback.default_port, 8000);
    assert!(fallback.working_directory.is_none());
    let loaded = ServerConfig::loaded_or_default(Some(ServerConfig {
        working_directory: Some("/srv/app".to_string()),
        default_port: 9100,
    }));
    assert_eq!(loaded.default_port, 9100);
    assert_eq!(loaded.working_directory.as_deref(), Some("/srv/app"));
}

#[test]
fn start_while_running_returns_unchanged_status() {
    let mut manager = ServerManager::new(ServerConfig::default());
    let first = started(&mut manager, Some(8100), 4242);
    match manager.begin_start(Some(9999)) {
        StartPlan::AlreadyRunning(s) => assert_eq!(s, first),
        StartPlan::Launch(_) => panic!("a second process would be launched"),
    }
    assert_eq!(manager.status(), first);
}

#[test]
fn stop_while_idle_returns_idle_status() {
    let mut manager = ServerManager::new(ServerConfig::default());
    assert_eq!(manager.begin_stop(), None);
    assert_eq!(manager.finish_stop(), idle());
    assert_eq!(manager.status(), idle());
}

#[test]
fn start_on_port_9001_reports_port_and_pid() {
    let mut manager = ServerManager::new(ServerConfig::default());
    let plan = match manager.begin_start(Some(9001)) {
        StartPlan::Launch(plan) => plan,
        StartPlan::AlreadyRunning(_) => panic!("nothing was running"),
    };
    assert_eq!(plan.port, 9001);
    manager.finish_start(777);
    let status = manager.status();
    assert_eq!(status.port, Some(9001));
    assert_eq!(status.pid, Some(777));
    assert!(status.running);
}

#[test]
fn start_without_port_uses_configured_default() {
    let mut manager = ServerManager::new(ServerConfig {
        working_directory: Some("/opt/svc".to_string()),
        default_port: 8123,
    });
    match manager.begin_start(None) {
        StartPlan::Launch(plan) => {
            assert_eq!(plan.port, 8123);
            assert_eq!(plan.working_directory.as_deref(), Some("/opt/svc"));
        }
        StartPlan::AlreadyRunning(_) => panic!("nothing was running"),
    }
}

#[test]
fn failed_launch_leaves_nothing_running() {
    let mut manager = ServerManager::new(ServerConfig::default());
    assert!(matches!(manager.begin_start(None), StartPlan::Launch(_)));
    manager.abort_start();
    assert_eq!(manager.status(), idle());
    assert!(matches!(manager.begin_start(None), StartPlan::Launch(_)));
}

#[test]
fn restart_clears_old_pid_before_new_one() {
    let mut manager = ServerManager::new(ServerConfig::default());
    started(&mut manager, Some(8000), 100);
    assert_eq!(manager.begin_stop(), Some(100));
    assert_eq!(manager.status(), idle());
    let stopped = manager.finish_stop();
    assert_eq!(stopped, idle());
    assert_eq!(RESTART_SETTLE_MILLIS, 1000);
    assert!(matches!(manager.begin_start(None), StartPlan::Launch(_)));
    assert_eq!(manager.status().pid, None);
    let status = manager.finish_start(200);
    assert_eq!(status.pid, Some(200));
    assert_eq!(manager.begin_stop(), Some(200));
}

#[test]
fn port_conflict_of_current_process_tears_it_down() {
    let mut manager = ServerManager::new(ServerConfig::default());
    started(&mut manager, Some(8000), 31);
    assert_eq!(manager.on_port_conflict(31), Some(31));
    assert_eq!(manager.status(), idle());
    assert_eq!(manager.begin_stop(), None);
}

#[test]
fn port_conflict_of_other_process_changes_nothing() {
    let mut manager = ServerManager::new(ServerConfig::default());
    let status = started(&mut manager, Some(8000), 31);
    assert_eq!(manager.on_port_conflict(30), None);
    assert_eq!(manager.status(), status);
}

#[test]
fn set_config_swaps_only_after_persisting() {
    let mut manager = ServerManager::new(ServerConfig::default());
    let wanted = ServerConfig { working_directory: None, default_port: 9100 };
    let refused = manager.set_config(wanted.clone(), Err("Failed to write config file: denied".to_string()));
    assert_eq!(refused.unwrap_err(), "Failed to write config file: denied");
    assert_eq!(manager.config().default_port, 8000);
    let accepted = manager.set_config(wanted, Ok(())).unwrap();
    assert_eq!(accepted.default_port, 9100);
    assert_eq!(manager.config().default_port, 9100);
}

#[test]
fn cleanup_twice_on_stopped_supervisor_kills_nothing() {
    let mut manager = ServerManager::new(ServerConfig::default());
    assert_eq!(manager.cleanup(), None);
    assert_eq!(manager.cleanup(), None);
    assert_eq!(manager.status(), idle());
}

#[test]
fn cleanup_takes_running_process_once() {
    let mut manager = ServerManager::new(ServerConfig::default());
    started(&mut manager, Some(8000), 55);
    assert_eq!(manager.cleanup(), Some(55));
    assert_eq!(manager.cleanup(), None);
    assert_eq!(manager.status(), idle());
}

#[test]
fn phases_follow_the_lifecycle() {
    let mut manager = ServerManager::new(ServerConfig::default());
    assert_eq!(manager.phase(), Phase::Stopped);
    assert!(matches!(manager.begin_start(None), StartPlan::Launch(_)));
    assert_eq!(manager.phase(), Phase::Starting);
    manager.finish_start(9);
    assert_eq!(manager.phase(), Phase::Running);
    manager.begin_stop();
    assert_eq!(manager.phase(), Phase::Stopping);
    manager.finish_stop();
    assert_eq!(manager.phase(), Phase::Stopped);
}

#[test]
fn second_start_keeps_first_status() {
    let mut manager = ServerManager::new(ServerConfig::default());
    let first = started(&mut manager, Some(9001), 12);
    match manager.begin_start(Some(9002)) {
        StartPlan::AlreadyRunning(s) => assert_eq!(s, first),
        StartPlan::Launch(_) => panic!("a second process would be launched"),
    }
}

#[test]
fn launch_plan_arguments() {
    let mut manager = ServerManager::new(ServerConfig::default());
    let plan = match manager.begin_start(Some(9001)) {
        StartPlan::Launch(plan) => plan,
        StartPlan::AlreadyRunning(_) => panic!("nothing was running"),
    };
    assert_eq!(plan.program(), "uv");
    assert_eq!(plan.args(), vec!["run", "server/main.py", "--port", "9001"]);
    let zero = server_supervisor::launch::LaunchPlan { port: 0, working_directory: None };
    assert_eq!(zero.args()[3], "0");
    let top = server_supervisor::launch::LaunchPlan { port: 65535, working_directory: None };
    assert_eq!(top.args()[3], "65535");
}

#[test]
fn working_directory_prefers_configuration() {
    let configured = server_supervisor::launch::LaunchPlan {
        port: 1,
        working_directory: Some("/cfg".to_string()),
    };
    assert_eq!(configured.resolve_directory(Some("/parent".to_string())).unwrap(), "/cfg");
    let unset = server_supervisor::launch::LaunchPlan { port: 1, working_directory: None };
    assert_eq!(unset.resolve_directory(Some("/parent".to_string())).unwrap(), "/parent");
    assert!(matches!(unset.resolve_directory(None), Err(LaunchError::NoParentDirectory)));
}

#[test]
fn launch_error_messages() {
    assert_eq!(LaunchError::NoCurrentDirectory.message(), "Failed to get current directory");
    assert_eq!(LaunchError::NoParentDirectory.message(), "Failed to get parent directory");
    let missing = server_supervisor::launch::check_entry(
        "/work".to_string(),
        "/work/server/main.py".to_string(),
        false,
    )
    .unwrap_err();
    assert_eq!(
        missing.message(),
        "server/main.py not found in working directory: /work. Expected path: /work/server/main.py"
    );
    assert!(server_supervisor::launch::check_entry("/w".to_string(), "/w/x".to_string(), true).is_ok());
    let spawn = LaunchError::SpawnFailed {
        working_directory: "/work".to_string(),
        reason: "No such file or directory".to_string(),
    };
    assert_eq!(spawn.message(), "Failed to start server in /work: No such file or directory");
    let capture = LaunchError::CaptureFailed { stream: server_supervisor::relay::Stream::Stderr };
    assert_eq!(capture.message(), "Failed to capture stderr");
}
