use dashboard_core::messages::{ClientAction, ClientCommand, DashboardMessage};
use dashboard_core::worker::{step, IoAction, WorkerEvent, WorkerState};
use dashboard_core::RETRY_DELAY_MS;

const INIT_FRAME: &str = "{\"type\":\"init\",\"payload\":{\"fsm_state\":\"IDLE\",\"step_index\":0,\"plan_length\":0,\"current_goal\":\"\",\"blackboard\":{\"game_basic_state\":\"\",\"scratchpad\":\"\",\"current_step\":null,\"plan\":[],\"action_result\":null}}}";

#[test]
fn epoch_events_arrive_in_order() {
    // the server accepts, sends one init frame, then closes the stream: the
    // consumer observes Connected, Message(Init(..)), Disconnected, in order
    let mut state = WorkerState::Dialing;
    let mut emitted: Vec<ClientAction> = Vec::new();
    let events = vec![
        WorkerEvent::DialOk,
        WorkerEvent::Frame(INIT_FRAME.to_string()),
        WorkerEvent::ReadFailed,
    ];
    for ev in events {
        let r = step(state, &ev);
        state = r.next;
        if let Some(a) = r.emit {
            emitted.push(a);
        }
        assert!(r.io.is_none());
    }
    assert_eq!(state, WorkerState::Dialing);
    assert_eq!(emitted.len(), 3);
    assert!(matches!(emitted[0], ClientAction::Connected));
    match &emitted[1] {
        ClientAction::Message(DashboardMessage::Init(p)) => {
            assert_eq!(p.fsm_state, "IDLE");
            assert_eq!(p.step_index, 0);
        }
        _ => panic!("expected the decoded init message"),
    }
    assert!(matches!(emitted[2], ClientAction::Disconnected));
}

#[test]
fn worker_retries_until_the_dial_succeeds() {
    // unreachable for the first 3 attempts, then accepting: each failure asks
    // for one retry delay and tells the consumer nothing; the worker still
    // reaches the active state on its own
    let mut state = WorkerState::Dialing;
    for _ in 0..3 {
        let r = step(state, &WorkerEvent::DialErr);
        state = r.next;
        assert_eq!(state, WorkerState::Dialing);
        assert!(r.emit.is_none());
        assert!(matches!(r.io, Some(IoAction::SleepRetry)));
    }
    let r = step(state, &WorkerEvent::DialOk);
    assert_eq!(r.next, WorkerState::Active);
    assert!(matches!(r.emit, Some(ClientAction::Connected)));
    assert!(r.io.is_none());
    assert_eq!(RETRY_DELAY_MS, 2000);
}

#[test]
fn command_while_active_writes_exactly_once() {
    let r = step(
        WorkerState::Active,
        &WorkerEvent::Command(ClientCommand::SendCommand("move north".to_string())),
    );
    assert_eq!(r.next, WorkerState::Active);
    assert!(r.emit.is_none());
    match r.io {
        Some(IoAction::Write(text)) => {
            assert_eq!(
                text,
                "{\"type\":\"command\",\"payload\":{\"command\":\"move north\"}}"
            );
        }
        _ => panic!("expected exactly one write"),
    }
}

#[test]
fn command_while_dialing_is_dropped() {
    // submitting while no connection is active does not crash the worker and
    // does not appear on the wire once a connection is later established
    let r = step(
        WorkerState::Dialing,
        &WorkerEvent::Command(ClientCommand::SendCommand("lost".to_string())),
    );
    assert_eq!(r.next, WorkerState::Dialing);
    assert!(r.emit.is_none());
    assert!(r.io.is_none());
    // the following epoch owes nothing to the dropped command
    let r = step(r.next, &WorkerEvent::DialOk);
    assert_eq!(r.next, WorkerState::Active);
    assert!(r.io.is_none());
}

#[test]
fn undecodable_frame_surfaces_error_and_keeps_connection() {
    let r = step(
        WorkerState::Active,
        &WorkerEvent::Frame("{\"type\":\"mystery\",\"payload\":{}}".to_string()),
    );
    assert_eq!(r.next, WorkerState::Active);
    match r.emit {
        Some(ClientAction::Error(msg)) => assert_eq!(msg, "frame type is not recognized"),
        _ => panic!("expected a surfaced decode failure"),
    }
    assert!(r.io.is_none());
}

#[test]
fn write_failure_closes_the_epoch() {
    let r = step(WorkerState::Active, &WorkerEvent::WriteFailed);
    assert_eq!(r.next, WorkerState::Dialing);
    assert!(matches!(r.emit, Some(ClientAction::Disconnected)));
    assert!(r.io.is_none());
}

#[test]
fn read_failure_closes_the_epoch() {
    let r = step(WorkerState::Active, &WorkerEvent::ReadFailed);
    assert_eq!(r.next, WorkerState::Dialing);
    assert!(matches!(r.emit, Some(ClientAction::Disconnected)));
    assert!(r.io.is_none());
}
