use cursorhome::{
    extract_screen_name, find_synergy_log, log_candidates, parse_transition_event,
    transitions_in_bytes, LogRoot, MonitorError, SynergyMonitor, TransitionType,
};

fn started(offset: u64) -> SynergyMonitor {
    let mut m = SynergyMonitor::new();
    m.start("/home/user/.synergy/synergy.log".to_string(), Some(offset));
    m
}

#[test]
fn switching_to_reports_one_departure() {
    let mut m = started(100);
    let data = b"[2024-05-01T10:00:00] INFO: switching to Office-PC (left edge)\n";
    let events = m.process_new_entries(100 + data.len() as u64, data).unwrap();
    assert_eq!(events.len(), 1);
    assert_eq!(events[0].transition_type, TransitionType::Left);
    assert_eq!(events[0].screen_name, "Office-PC");
    assert!(m.is_cursor_remote());
    assert_eq!(m.last_position(), 100 + data.len() as u64);
}

#[test]
fn switching_from_reports_one_return() {
    let mut m = started(0);
    let data = b"[2024-05-01T10:00:05] INFO: switching from Office-PC (right edge)\n";
    let events = m.process_new_entries(data.len() as u64, data).unwrap();
    assert_eq!(events.len(), 1);
    assert_eq!(events[0].transition_type, TransitionType::Returned);
    assert_eq!(events[0].screen_name, "Office-PC");
    assert!(!m.is_cursor_remote());
}

#[test]
fn consecutive_appends_are_read_once() {
    let mut m = started(0);
    let first = b"switching to Alpha\n";
    let second = b"switching from Alpha\nswitching to Beta\n";
    let size1 = first.len() as u64;
    let size2 = size1 + second.len() as u64;
    let a = m.process_new_entries(size1, first).unwrap();
    assert_eq!(a.len(), 1);
    let b = m.process_new_entries(size2, second).unwrap();
    let names: Vec<&str> = b.iter().map(|t| t.screen_name.as_str()).collect();
    assert_eq!(names, vec!["Alpha", "Beta"]);
    assert!(m.process_new_entries(size2, second).is_none());
    assert_eq!(m.last_position(), size2);
    assert!(m.is_cursor_remote());
}

#[test]
fn truncated_log_is_skipped() {
    let mut m = started(500);
    assert!(m.process_new_entries(20, b"switching to Alpha\n").is_none());
    assert_eq!(m.last_position(), 500);
    assert!(!m.is_cursor_remote());
}

#[test]
fn lines_without_transitions_give_nothing() {
    let mut m = started(0);
    let data = b"INFO: connected\nDEBUG: heartbeat\n";
    assert!(m.process_new_entries(data.len() as u64, data).is_none());
    assert_eq!(m.last_position(), data.len() as u64);
}

#[test]
fn line_splitting_handles_crlf_partial_lines_and_bad_bytes() {
    let events = transitions_in_bytes(b"noise\r\nswitching to A\r\nswitching from B");
    let got: Vec<(TransitionType, &str)> =
        events.iter().map(|t| (t.transition_type, t.screen_name.as_str())).collect();
    assert_eq!(got, vec![(TransitionType::Left, "A"), (TransitionType::Returned, "B")]);
    let bad = transitions_in_bytes(b"\xffswitching to A\nswitching from B\n");
    assert_eq!(bad.len(), 1);
    assert_eq!(bad[0].transition_type, TransitionType::Returned);
    assert!(transitions_in_bytes(b"").is_empty());
}

#[test]
fn detection_ignores_case_but_names_need_exact_patterns() {
    let t = parse_transition_event("SWITCHING TO Office-PC").unwrap();
    assert_eq!(t.transition_type, TransitionType::Left);
    assert_eq!(t.screen_name, "remote");
    let e = parse_transition_event("Entering screen").unwrap();
    assert_eq!(e.transition_type, TransitionType::Returned);
    assert_eq!(e.screen_name, "remote");
    assert!(parse_transition_event("cursor -> Laptop").is_none());
}

#[test]
fn later_patterns_name_the_peer() {
    let t = parse_transition_event("leaving screen A to Laptop-2").unwrap();
    assert_eq!(t.transition_type, TransitionType::Left);
    assert_eq!(t.screen_name, "Laptop-2");
    let r = parse_transition_event("entering from Desk.local").unwrap();
    assert_eq!(r.transition_type, TransitionType::Returned);
    assert_eq!(r.screen_name, "Desk.local");
    let s = parse_transition_event("leaving now -> Tablet_1").unwrap();
    assert_eq!(s.screen_name, "Tablet_1");
}

#[test]
fn extract_screen_name_by_direction() {
    assert_eq!(extract_screen_name("switch to Laptop", true), Some("Laptop".to_string()));
    assert_eq!(extract_screen_name("switch to Laptop", false), None);
    assert_eq!(extract_screen_name("switch from Laptop", false), Some("Laptop".to_string()));
    assert_eq!(extract_screen_name("<- Home.PC", false), Some("Home.PC".to_string()));
}

#[test]
fn first_existing_log_is_chosen() {
    assert_eq!(find_synergy_log(&vec![false, true, true]), Ok(1));
    assert_eq!(find_synergy_log(&vec![true]), Ok(0));
    assert_eq!(find_synergy_log(&vec![false, false]), Err(MonitorError::LogNotFound));
    assert_eq!(find_synergy_log(&Vec::new()), Err(MonitorError::LogNotFound));
}

#[test]
fn log_candidates_in_search_order() {
    let c = log_candidates();
    assert_eq!(c.len(), 6);
    assert_eq!(c[0].root, LogRoot::DataLocal);
    assert_eq!(c[0].relative, "synergy/synergy.log");
    assert_eq!(c[3].root, LogRoot::Absolute);
    assert_eq!(c[3].relative, "/var/log/synergy.log");
    assert_eq!(c[5].relative, ".var/app/com.symless.Synergy/data/synergy/synergy.log");
}

#[test]
fn monitor_start_and_stop() {
    let mut m = SynergyMonitor::default();
    assert!(!m.is_watching());
    assert_eq!(m.last_position(), 0);
    m.start("log".to_string(), None);
    assert!(m.is_watching());
    assert_eq!(m.last_position(), 0);
    m.start("log".to_string(), Some(42));
    assert_eq!(m.last_position(), 42);
    m.stop();
    assert!(!m.is_watching());
}
