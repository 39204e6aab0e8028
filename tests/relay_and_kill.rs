use server_supervisor::clock::{stamp_at, stamp_now, stamp_or_unknown, time_of_day};
use server_supervisor::guard::{action_for_delivery, ConsoleEvent, GuardAction, HostSignal, SignalGuard};
use server_supervisor::relay::{
    is_port_conflict, make_output, relay_stdout_line, relay_stdout_line_at, stamped_output, EventKind,
    StderrRelay, Stream,
};
use server_supervisor::terminator::{KillStep, Platform, Signal, Terminator};

fn is_clock(t: &str) -> bool {
    let b = t.as_bytes();
    b.len() == 8
        && b[2] == b':'
        && b[5] == b':'
        && [0, 1, 3, 4, 6, 7].iter().all(|&i| b[i].is_ascii_digit())
        && (b[0] - b'0') * 10 + (b[1] - b'0') < 24
        && (b[3] - b'0') * 10 + (b[4] - b'0') < 60
        && (b[6] - b'0') * 10 + (b[7] - b'0') <= 60
}

#[test]
fn conflict_signatures_are_detected() {
    assert!(is_port_conflict("ERROR: [Errno 98] error while attempting to bind on address ('0.0.0.0', 8000): address already in use"));
    assert!(is_port_conflict("OSError: [Errno 48] Address already in use"));
    assert!(is_port_conflict("Port already in use"));
    assert!(is_port_conflict("Cannot bind to address 127.0.0.1:8000"));
    assert!(is_port_conflict("xx address already in use"));
}

#[test]
fn ordinary_lines_are_not_conflicts() {
    assert!(!is_port_conflict(""));
    assert!(!is_port_conflict("INFO: Uvicorn running on http://127.0.0.1:8000"));
    assert!(!is_port_conflict("Address already in use"));
    assert!(!is_port_conflict("port already in use"));
    assert!(!is_port_conflict("Errno 4"));
}

#[test]
fn stderr_conflict_emits_one_failure_and_stops() {
    let mut relay = StderrRelay::new();
    let first = relay.on_line_at("10:00:00".to_string(), "starting".to_string());
    assert_eq!(first.len(), 1);
    assert_eq!(first[0].kind, EventKind::Output);
    assert_eq!(first[0].payload.stream, "stderr");
    assert_eq!(first[0].payload.content, "starting");
    assert_eq!(first[0].channel(), "server-output");
    assert!(!relay.is_finished());

    let line = "OSError: address already in use".to_string();
    let events = relay.on_line_at("10:00:01".to_string(), line.clone());
    assert_eq!(events.len(), 3);
    assert_eq!(events[0].kind, EventKind::Output);
    assert_eq!(events[0].payload.content, line);
    assert_eq!(events[1].kind, EventKind::Output);
    assert_eq!(events[1].channel(), "server-output");
    assert_eq!(events[1].payload.stream, "error");
    assert_eq!(events[1].payload.content, "Server startup failed: Port already in use");
    assert_eq!(events[2].kind, EventKind::StartupFailed);
    assert_eq!(events[2].channel(), "server-startup-failed");
    assert_eq!(events[2].payload.stream, "error");
    assert_eq!(events[2].payload.timestamp, "10:00:01");
    assert_eq!(events[2].payload.content, "Server startup failed: Port already in use");
    assert!(relay.is_finished());

    let later = relay.on_line_at("10:00:02".to_string(), "Port already in use".to_string());
    assert!(later.is_empty());
}

#[test]
fn stderr_lines_are_stamped_now() {
    let mut relay = StderrRelay::new();
    let events = relay.on_line("warming up".to_string());
    assert_eq!(events.len(), 1);
    assert_eq!(events[0].payload.stream, "stderr");
    let failed = relay.on_line("Port already in use".to_string());
    assert_eq!(failed.len(), 3);
    assert_eq!(failed[2].kind, EventKind::StartupFailed);
    assert_eq!(failed[1].payload.timestamp, failed[0].payload.timestamp);
    assert!(relay.on_line("more".to_string()).is_empty());
    assert!(is_clock(&events[0].payload.timestamp), "{}", events[0].payload.timestamp);
    assert_eq!(events[0].payload.content, "warming up");
}

#[test]
fn stdout_lines_are_forwarded() {
    let e = relay_stdout_line_at("01:02:03".to_string(), "hello".to_string());
    assert_eq!(e.kind, EventKind::Output);
    assert_eq!(e.payload.timestamp, "01:02:03");
    assert_eq!(e.payload.stream, "stdout");
    assert_eq!(e.payload.content, "hello");
    let now = relay_stdout_line("again".to_string());
    assert!(is_clock(&now.payload.timestamp));
    assert_eq!(now.payload.stream, "stdout");
}

#[test]
fn outputs_carry_their_stream_tag() {
    let o = make_output("t".to_string(), Stream::Error, "c".to_string());
    assert_eq!(o.stream, "error");
    let s = stamped_output(Stream::Stderr, "x".to_string());
    assert_eq!(s.stream, "stderr");
    assert!(is_clock(&s.timestamp));
    assert_ne!(s.timestamp, "x");
}

#[test]
fn posix_stop_after_graceful_kill_signals_group() {
    let t = Terminator::new(Platform::Posix);
    assert_eq!(t.stop_steps(1234, true), vec![KillStep::Send { target: -1234, signal: Signal::Terminate }]);
}

#[test]
fn posix_stop_after_failed_kill_forces_group_and_child() {
    let t = Terminator::new(Platform::Posix);
    assert_eq!(
        t.stop_steps(1234, false),
        vec![
            KillStep::Send { target: -1234, signal: Signal::Kill },
            KillStep::Send { target: 1234, signal: Signal::Kill },
        ]
    );
    assert_eq!(t.forced_steps(1234), t.stop_steps(1234, false));
}

#[test]
fn posix_never_signals_reserved_or_wrapped_pids() {
    let t = Terminator::new(Platform::Posix);
    for pid in [0u32, 1, 2_147_483_648, u32::MAX] {
        assert!(t.stop_steps(pid, true).is_empty());
        assert!(t.stop_steps(pid, false).is_empty());
        assert!(t.forced_steps(pid).is_empty());
    }
    assert_eq!(
        t.forced_steps(2_147_483_647)[0],
        KillStep::Send { target: -2_147_483_647, signal: Signal::Kill }
    );
}

#[test]
fn windows_kills_process_tree() {
    let t = Terminator::new(Platform::Windows);
    assert_eq!(t.stop_steps(88, true), vec![KillStep::KillTree { pid: 88 }]);
    assert_eq!(t.stop_steps(88, false), vec![KillStep::KillTree { pid: 88 }]);
    assert_eq!(t.forced_steps(88), vec![KillStep::KillTree { pid: 88 }]);
}

#[test]
fn guard_cleans_up_once_then_exits() {
    let mut guard = SignalGuard::new();
    assert_eq!(guard.on_delivery(), GuardAction::EmergencyCleanup);
    assert_eq!(guard.on_delivery(), GuardAction::ExitNow);
    assert_eq!(guard.on_delivery(), GuardAction::ExitNow);
    assert_eq!(action_for_delivery(false), GuardAction::EmergencyCleanup);
    assert_eq!(action_for_delivery(true), GuardAction::ExitNow);
}

#[test]
fn signal_and_console_event_names() {
    assert_eq!(HostSignal::Interrupt.name(), "SIGINT");
    assert_eq!(HostSignal::Terminate.name(), "SIGTERM");
    assert_eq!(HostSignal::Quit.name(), "SIGQUIT");
    assert_eq!(HostSignal::Abort.name(), "SIGABRT");
    assert_eq!(HostSignal::Other.name(), "UNKNOWN");
    assert_eq!(ConsoleEvent::from_code(0), ConsoleEvent::CtrlC);
    assert_eq!(ConsoleEvent::from_code(1), ConsoleEvent::CtrlBreak);
    assert_eq!(ConsoleEvent::from_code(2), ConsoleEvent::Close);
    assert_eq!(ConsoleEvent::from_code(5), ConsoleEvent::Logoff);
    assert_eq!(ConsoleEvent::from_code(6), ConsoleEvent::Shutdown);
    assert_eq!(ConsoleEvent::from_code(3), ConsoleEvent::Unknown(3));
}

#[test]
fn longer_conflict_spellings_are_detected() {
    assert!(is_port_conflict("OSError: [Errno 48] error while attempting to bind"));
    assert!(is_port_conflict("[Errno 98] error while attempting to bind on address ('127.0.0.1', 9001): address already in use"));
}

#[test]
fn time_of_day_stamps() {
    assert_eq!(time_of_day(1431648000 + 3661), "01:01:01");
    assert_eq!(time_of_day(86399), "23:59:59");
    assert_eq!(time_of_day(-1), "23:59:59");
    assert_eq!(time_of_day(i64::MAX), "--:--:--");
    assert_eq!(stamp_or_unknown(None), "--:--:--");
    assert_eq!(stamp_or_unknown(Some("12:00:00".to_string())), "12:00:00");
    assert!(is_clock(&stamp_now()));
    assert_eq!(time_of_day(253402300799), "23:59:59");
    assert_eq!(stamp_at(None), "--:--:--");
    assert_eq!(stamp_at(Some(45296)), "12:34:56");
    assert_eq!(stamp_at(Some(u64::MAX)), "--:--:--");
}
