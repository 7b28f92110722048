use script_bridge::bridge::{join_output, Action, Dispatch, SendError};
use script_bridge::global::Global;
use script_bridge::protocol::{FileReadRequest, TimeoutRequest};

fn strings(items: &[&str]) -> Vec<String> {
    items.iter().map(|s| s.to_string()).collect()
}

#[test]
fn send_rejects_every_other_argument_count() {
    let g = Global::new(());
    for argc in [0usize, 1, 3, 4, 100] {
        assert_eq!(g.send(argc, "timeout"), Err(SendError::ArgumentCount));
        assert_eq!(g.send(argc, "readFile"), Err(SendError::ArgumentCount));
    }
}

#[test]
fn send_dispatches_known_events() {
    let g = Global::new(());
    assert_eq!(g.send(2, "timeout"), Ok(Dispatch::Timeout));
    assert_eq!(g.send(2, "readFile"), Ok(Dispatch::ReadFile));
}

#[test]
fn send_ignores_unknown_events() {
    let g = Global::new(());
    assert_eq!(g.send(2, "unknown"), Ok(Dispatch::Ignore));
    assert_eq!(g.send(2, ""), Ok(Dispatch::Ignore));
    assert_eq!(g.send(2, "Timeout"), Ok(Dispatch::Ignore));
    assert_eq!(g.send(2, "readfile"), Ok(Dispatch::Ignore));
}

#[test]
fn set_timeout_registers_one_timer() {
    let g = Global::new(());
    match g.set_timeout(Some(TimeoutRequest { id: 7, timeout: 250 })) {
        Ok(Action::ScheduleTimer { id, delay_ms }) => {
            assert_eq!(id, 7);
            assert_eq!(delay_ms, 250);
        }
        other => panic!("unexpected {:?}", other),
    }
}

#[test]
fn timers_with_same_id_stay_independent() {
    let g = Global::new(());
    let a = g.set_timeout(Some(TimeoutRequest { id: 3, timeout: 10 }));
    let b = g.set_timeout(Some(TimeoutRequest { id: 3, timeout: 20 }));
    assert!(matches!(a, Ok(Action::ScheduleTimer { id: 3, delay_ms: 10 })));
    assert!(matches!(b, Ok(Action::ScheduleTimer { id: 3, delay_ms: 20 })));
}

#[test]
fn malformed_payloads_are_reported() {
    let g = Global::new(());
    assert!(matches!(g.set_timeout(None), Err(SendError::MalformedPayload)));
    assert!(matches!(g.read_file(None), Err(SendError::MalformedPayload)));
}

#[test]
fn read_file_starts_one_worker() {
    let g = Global::new(());
    let req = FileReadRequest { id: 42, filename: "data.txt".to_string() };
    match g.read_file(Some(req)) {
        Ok(Action::SpawnRead { id, filename }) => {
            assert_eq!(id, 42);
            assert_eq!(filename, "data.txt");
        }
        other => panic!("unexpected {:?}", other),
    }
}

#[test]
fn print_joins_with_single_spaces() {
    let g = Global::new(());
    assert_eq!(g.print(&strings(&["a", "b", "3"])), "a b 3");
}

#[test]
fn print_without_arguments_is_empty_line() {
    let g = Global::new(());
    assert_eq!(g.print(&Vec::new()), "");
}

#[test]
fn join_output_edge_cases() {
    assert_eq!(join_output(&strings(&["only"])), "only");
    assert_eq!(join_output(&strings(&["", ""])), " ");
    assert_eq!(join_output(&strings(&["x y", "z"])), "x y z");
}

#[test]
fn new_global_clears_flag() {
    let g = Global::new(5u8);
    assert_eq!(g.flag, 0);
    assert_eq!(g.event_loop, 5u8);
}
