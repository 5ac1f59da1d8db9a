use sidecar_supervisor::relay::{relay, relay_event, ExitStatus, ProcessEvent, RelayAction};

fn out(text: &str) -> ProcessEvent {
    ProcessEvent::Stdout(text.as_bytes().to_vec())
}

fn err(text: &str) -> ProcessEvent {
    ProcessEvent::Stderr(text.as_bytes().to_vec())
}

fn exited(code: i32) -> ProcessEvent {
    ProcessEvent::Terminated { code: Some(code), signal: None }
}

#[test]
fn lines_go_to_their_sinks_until_termination() {
    let events = vec![out("a"), err("b"), out("c"), exited(0)];
    let log = relay(&events);
    assert_eq!(log.info, vec!["a".to_string(), "c".to_string()]);
    assert_eq!(log.error, vec!["b".to_string()]);
    assert!(log.fatal.is_empty());
    assert_eq!(log.exit, Some(ExitStatus { code: Some(0), signal: None }));
    assert_eq!(log.consumed, 4);
}

#[test]
fn events_queued_after_termination_are_not_consumed() {
    let events = vec![out("a"), err("b"), out("c"), exited(0), out("late"), err("later"), exited(1)];
    let log = relay(&events);
    assert_eq!(log.info, vec!["a".to_string(), "c".to_string()]);
    assert_eq!(log.error, vec!["b".to_string()]);
    assert_eq!(log.exit, Some(ExitStatus { code: Some(0), signal: None }));
    assert_eq!(log.consumed, 4);
}

#[test]
fn a_closed_source_ends_the_relay_without_an_exit() {
    let events = vec![out("one"), out("two"), err("three")];
    let log = relay(&events);
    assert_eq!(log.info, vec!["one".to_string(), "two".to_string()]);
    assert_eq!(log.error, vec!["three".to_string()]);
    assert_eq!(log.exit, None);
    assert_eq!(log.consumed, 3);
}

#[test]
fn an_empty_source_relays_nothing() {
    let log = relay(&Vec::new());
    assert!(log.info.is_empty());
    assert!(log.error.is_empty());
    assert!(log.fatal.is_empty());
    assert_eq!(log.exit, None);
    assert_eq!(log.consumed, 0);
}

#[test]
fn termination_first_stops_at_once() {
    let events = vec![ProcessEvent::Terminated { code: None, signal: Some(9) }, out("x")];
    let log = relay(&events);
    assert!(log.info.is_empty());
    assert!(log.error.is_empty());
    assert_eq!(log.exit, Some(ExitStatus { code: None, signal: Some(9) }));
    assert_eq!(log.consumed, 1);
}

#[test]
fn a_read_failure_is_logged_and_the_relay_goes_on() {
    let events = vec![out("a"), ProcessEvent::Error("broken pipe".to_string()), err("b"), out("c")];
    let log = relay(&events);
    assert_eq!(log.info, vec!["a".to_string(), "c".to_string()]);
    assert_eq!(log.error, vec!["b".to_string()]);
    assert_eq!(log.fatal, vec!["broken pipe".to_string()]);
    assert_eq!(log.exit, None);
    assert_eq!(log.consumed, 4);
}

#[test]
fn unknown_events_are_skipped() {
    let events = vec![ProcessEvent::Other, out("a"), ProcessEvent::Other, exited(3)];
    let log = relay(&events);
    assert_eq!(log.info, vec!["a".to_string()]);
    assert!(log.error.is_empty());
    assert_eq!(log.exit, Some(ExitStatus { code: Some(3), signal: None }));
    assert_eq!(log.consumed, 4);
}

#[test]
fn one_event_one_action() {
    assert_eq!(relay_event(&out("hello")), RelayAction::Info("hello".to_string()));
    assert_eq!(relay_event(&err("oops")), RelayAction::Error("oops".to_string()));
    assert_eq!(
        relay_event(&ProcessEvent::Error("read failed".to_string())),
        RelayAction::Fatal("read failed".to_string())
    );
    assert_eq!(
        relay_event(&ProcessEvent::Terminated { code: Some(1), signal: Some(15) }),
        RelayAction::Exited { code: Some(1), signal: Some(15) }
    );
    assert_eq!(relay_event(&ProcessEvent::Other), RelayAction::Skip);
}

#[test]
fn only_termination_stops_the_relay() {
    assert!(relay_event(&exited(0)).stops());
    assert!(!relay_event(&out("a")).stops());
    assert!(!relay_event(&err("a")).stops());
    assert!(!relay_event(&ProcessEvent::Error("e".to_string())).stops());
    assert!(!relay_event(&ProcessEvent::Other).stops());
}

#[test]
fn bytes_are_decoded_leniently() {
    let valid = ProcessEvent::Stdout(vec![0xe2, 0x9c, 0x93, b' ', b'o', b'k']);
    assert_eq!(relay_event(&valid), RelayAction::Info("\u{2713} ok".to_string()));
    let broken = ProcessEvent::Stderr(vec![b'a', 0xff, b'b']);
    assert_eq!(relay_event(&broken), RelayAction::Error("a\u{fffd}b".to_string()));
    let empty = ProcessEvent::Stdout(Vec::new());
    assert_eq!(relay_event(&empty), RelayAction::Info(String::new()));
}

#[test]
fn order_within_a_stream_is_kept() {
    let events = vec![out("1"), err("x"), out("2"), err("y"), out("3"), err("z")];
    let log = relay(&events);
    assert_eq!(log.info, vec!["1".to_string(), "2".to_string(), "3".to_string()]);
    assert_eq!(log.error, vec!["x".to_string(), "y".to_string(), "z".to_string()]);
}

#[test]
fn a_read_failure_after_termination_is_never_seen() {
    let events = vec![exited(2), ProcessEvent::Error("late".to_string())];
    let log = relay(&events);
    assert!(log.fatal.is_empty());
    assert_eq!(log.consumed, 1);
}

#[test]
fn relaying_a_prefix_gives_a_prefix_of_the_lines() {
    let events = vec![out("1"), err("x"), out("2"), ProcessEvent::Error("e".to_string()), out("3")];
    let whole = relay(&events);
    for n in 0..=events.len() {
        let part = relay(&events[..n].to_vec());
        assert_eq!(part.consumed, n);
        assert!(whole.info.starts_with(&part.info));
        assert!(whole.error.starts_with(&part.error));
        assert!(whole.fatal.starts_with(&part.fatal));
    }
}
