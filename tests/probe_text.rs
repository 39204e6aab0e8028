use server_supervisor::probe::{
    kill_report, lsof_entries, lsof_pids, needs_forceful_kill, netstat_listeners, parse_pid, process_entry,
    tasklist_entry, PortSweep,
};
use server_supervisor::text::{chars_of, decimal_text, is_whitespace, string_of, text_contains};

#[test]
fn lsof_listing_gives_command_and_pid() {
    let out = "COMMAND   PID USER   FD   TYPE\npython3 4242 me 3u IPv4\n\n   \nuv\t77 me 4u IPv6\r\nlonely\n";
    assert_eq!(lsof_entries(out), vec!["python3 (PID: 4242)", "uv (PID: 77)"]);
    assert!(lsof_entries("").is_empty());
    assert!(lsof_entries("COMMAND PID\n").is_empty());
}

#[test]
fn lsof_pids_are_trimmed_and_parsed() {
    assert_eq!(lsof_pids("123\n 456 \r\n+7\nabc\n4294967296\n4294967295\n1 2\n"), vec![123, 456, 7, 4294967295]);
    assert!(lsof_pids("").is_empty());
}

#[test]
fn pid_fields_parse_like_str_parse() {
    assert_eq!(parse_pid("0042"), Some(42));
    assert_eq!(parse_pid("+9"), Some(9));
    assert_eq!(parse_pid("+"), None);
    assert_eq!(parse_pid("-1"), None);
    assert_eq!(parse_pid(""), None);
    assert_eq!(parse_pid("99999999999"), None);
    assert_eq!(parse_pid(" 5"), None);
}

#[test]
fn netstat_listeners_on_port() {
    let out = "  Proto  Local Address  Foreign Address  State  PID\r\n  TCP    0.0.0.0:8000   0.0.0.0:0   LISTENING   4321\r\n  TCP    0.0.0.0:8001   0.0.0.0:0   LISTENING   99\r\n  TCP    10.0.0.2:8000  1.2.3.4:80  ESTABLISHED 5\r\n";
    assert_eq!(netstat_listeners(out, 8000), vec!["4321"]);
    assert_eq!(netstat_listeners(out, 800), vec!["4321", "99"]);
    assert!(netstat_listeners(out, 9000).is_empty());
}

#[test]
fn tasklist_entries() {
    assert_eq!(
        tasklist_entry(Some("\"python.exe\",\"4321\",\"Console\"\r\n"), "4321").as_deref(),
        Some("python.exe (PID: 4321)")
    );
    assert_eq!(tasklist_entry(Some("plain\r\n"), "1").as_deref(), Some("plain (PID: 1)"));
    assert_eq!(tasklist_entry(Some(""), "1"), None);
    assert_eq!(tasklist_entry(None, "12").as_deref(), Some("Unknown process (PID: 12)"));
    assert_eq!(process_entry("uv", "3"), "uv (PID: 3)");
}

#[test]
fn kill_reports() {
    assert_eq!(kill_report(&vec![]), "No processes found using the port");
    assert_eq!(kill_report(&vec![42]), "Killed 1 process(es) with PID(s): 42");
    assert_eq!(kill_report(&vec![42, 7, 100]), "Killed 3 process(es) with PID(s): 42, 7, 100");
}

#[test]
fn sweep_records_issued_kills() {
    let mut sweep = PortSweep::new();
    sweep.record(10, true);
    sweep.record(11, false);
    sweep.record(12, true);
    assert_eq!(sweep.report(), "Killed 2 process(es) with PID(s): 10, 12");
    assert!(needs_forceful_kill(true, true));
    assert!(!needs_forceful_kill(true, false));
    assert!(!needs_forceful_kill(false, true));
}

#[test]
fn text_helpers() {
    assert_eq!(decimal_text(0), "0");
    assert_eq!(decimal_text(9001), "9001");
    assert_eq!(decimal_text(u64::MAX), "18446744073709551615");
    assert!(text_contains("abcabd", "abd"));
    assert!(text_contains("abc", ""));
    assert!(!text_contains("ab", "abc"));
    assert_eq!(chars_of("héllo"), vec!['h', 'é', 'l', 'l', 'o']);
    assert_eq!(string_of(&vec!['o', 'k']), "ok");
    assert_eq!(string_of(&vec![]), "");
    assert!(is_whitespace('\u{3000}'));
    assert!(is_whitespace('\r'));
    assert!(!is_whitespace('x'));
}

#[test]
fn whitespace_agrees_with_char_is_whitespace() {
    for code in 0u32..0x3100 {
        if let Some(c) = char::from_u32(code) {
            assert_eq!(is_whitespace(c), c.is_whitespace(), "U+{:04X}", code);
        }
    }
    assert!(!is_whitespace('\u{feff}'));
}

#[test]
fn pid_parsing_agrees_with_str_parse() {
    for s in ["", "0", "7", "+", "+0", "++1", "-0", "12a", "4294967295", "4294967296", "000004294967295", " 1", "1 "] {
        assert_eq!(parse_pid(s), s.parse::<u32>().ok(), "{:?}", s);
    }
}
