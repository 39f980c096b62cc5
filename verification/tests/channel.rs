use dashboard_core::channel::{poll_events, WsClientHandle};
use dashboard_core::messages::{ClientAction, ClientCommand};

#[test]
fn send_command_enqueues_in_submission_order() {
    let (tx, rx) = std::sync::mpsc::channel::<ClientCommand>();
    let handle = WsClientHandle::new(tx);
    handle.send_command("first".to_string());
    handle.send_command("second".to_string());
    let ClientCommand::SendCommand(a) = rx.try_recv().unwrap();
    let ClientCommand::SendCommand(b) = rx.try_recv().unwrap();
    assert_eq!(a, "first");
    assert_eq!(b, "second");
    assert!(rx.try_recv().is_err());
}

#[test]
fn send_command_never_fails_observably() {
    let (tx, rx) = std::sync::mpsc::channel::<ClientCommand>();
    drop(rx);
    let handle = WsClientHandle::new(tx);
    // the worker is gone: the command is silently dropped
    handle.send_command("into the void".to_string());
}

#[test]
fn poll_events_drains_in_order_without_blocking() {
    let (tx, rx) = std::sync::mpsc::channel::<ClientAction>();
    assert!(poll_events(&rx, 16).is_empty());
    tx.send(ClientAction::Connected).unwrap();
    tx.send(ClientAction::Error("e".to_string())).unwrap();
    tx.send(ClientAction::Disconnected).unwrap();
    let events = poll_events(&rx, 16);
    assert_eq!(events.len(), 3);
    assert!(matches!(events[0], ClientAction::Connected));
    assert!(matches!(&events[1], ClientAction::Error(m) if m == "e"));
    assert!(matches!(events[2], ClientAction::Disconnected));
    assert!(poll_events(&rx, 16).is_empty());
}

#[test]
fn poll_events_takes_at_most_the_bound() {
    let (tx, rx) = std::sync::mpsc::channel::<ClientAction>();
    for _ in 0..5 {
        tx.send(ClientAction::Connected).unwrap();
    }
    let first = poll_events(&rx, 2);
    assert_eq!(first.len(), 2);
    let rest = poll_events(&rx, 16);
    assert_eq!(rest.len(), 3);
}
