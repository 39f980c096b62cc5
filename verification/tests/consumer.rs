use dashboard_core::consumer::{format_timestamp, DashboardState, TRACE_CAP};
use dashboard_core::messages::{
    ClientAction, DashboardMessage, GameMetricsPayload, LogPayload, MemoryPayload,
    TraceEventPayload,
};

fn trace(n: u64) -> TraceEventPayload {
    TraceEventPayload {
        timestamp: n,
        event_type: "log".to_string(),
        from_state: None,
        to_state: None,
        action_name: None,
        details: serde_json::Value::Null,
    }
}

#[test]
fn connection_events_steer_the_connected_flag() {
    let mut d = DashboardState::new();
    assert!(!d.connected);
    d.apply(ClientAction::Connected);
    assert!(d.connected);
    d.apply(ClientAction::Disconnected);
    assert!(!d.connected);
    // a surfaced error is not a state change
    d.apply(ClientAction::Error("whatever".to_string()));
    assert!(!d.connected);
}

#[test]
fn fresh_state_remembers_nothing() {
    let d = DashboardState::new();
    assert_eq!(d.current_tab, 0);
    assert!(d.latest_fsm.is_none());
    assert!(d.agent_metrics.is_none());
    assert!(d.trace_events.is_empty());
    assert!(d.memory_data.is_none());
    assert!(d.game_metrics.is_none());
}

#[test]
fn set_tab_changes_only_the_tab() {
    let mut d = DashboardState::new();
    d.apply(ClientAction::Connected);
    d.set_tab(2);
    assert_eq!(d.current_tab, 2);
    assert!(d.connected);
}

#[test]
fn messages_update_their_panel() {
    let mut d = DashboardState::new();
    d.apply(ClientAction::Message(DashboardMessage::Log(LogPayload {
        level: "info".to_string(),
        message: "hello".to_string(),
    })));
    assert!(d.latest_fsm.is_none());
    d.apply(ClientAction::Message(DashboardMessage::GameMetrics(
        GameMetricsPayload {
            fps: serde_json::Number::from(60u64),
            frame_time_ms: serde_json::Number::from_f64(16.7).unwrap(),
            tick_rate: serde_json::Number::from(20u64),
            entity_count: 5,
        },
    )));
    assert_eq!(d.game_metrics.as_ref().unwrap().entity_count, 5);
    d.apply(ClientAction::Message(DashboardMessage::MemoryUpdate(
        MemoryPayload {
            total_entries: 9,
            recent_queries: Vec::new(),
            recent_additions: Vec::new(),
        },
    )));
    assert_eq!(d.memory_data.as_ref().unwrap().total_entries, 9);
}

#[test]
fn trace_history_keeps_only_the_most_recent_events() {
    let mut d = DashboardState::new();
    for n in 0..(TRACE_CAP as u64 + 5) {
        d.apply(ClientAction::Message(DashboardMessage::TraceEvent(trace(n))));
    }
    assert_eq!(d.trace_events.len(), TRACE_CAP);
    // the oldest five were dropped; the rest are in arrival order
    assert_eq!(d.trace_events[0].timestamp, 5);
    assert_eq!(d.trace_events[TRACE_CAP - 1].timestamp, TRACE_CAP as u64 + 4);
}

#[test]
fn format_timestamp_pads_minutes_and_seconds() {
    assert_eq!(format_timestamp(0), "00:00");
    assert_eq!(format_timestamp(999), "00:00");
    assert_eq!(format_timestamp(65000), "01:05");
    assert_eq!(format_timestamp(600000), "10:00");
    assert_eq!(format_timestamp(7425000), "123:45");
}
