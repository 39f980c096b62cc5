use dashboard_core::codec::{decode, encode, DecodeError};
use dashboard_core::messages::{ClientCommand, DashboardMessage};

const INIT_FRAME: &str = "{\"type\":\"init\",\"payload\":{\"fsm_state\":\"IDLE\",\"step_index\":0,\"plan_length\":0,\"current_goal\":\"\",\"blackboard\":{\"game_basic_state\":\"\",\"scratchpad\":\"\",\"current_step\":null,\"plan\":[],\"action_result\":null}}}";

#[test]
fn decode_init_round_trips_fields() {
    let msg = decode(INIT_FRAME).unwrap();
    match msg {
        DashboardMessage::Init(p) => {
            assert_eq!(p.fsm_state, "IDLE");
            assert_eq!(p.step_index, 0);
            assert_eq!(p.plan_length, 0);
            assert_eq!(p.current_goal, "");
            assert_eq!(p.blackboard.game_basic_state, "");
            assert_eq!(p.blackboard.scratchpad, "");
            assert!(p.blackboard.current_step.is_null());
            assert!(p.blackboard.plan.is_empty());
            assert!(p.blackboard.action_result.is_null());
        }
        _ => panic!("expected an init message"),
    }
}

#[test]
fn decode_update_round_trips_fields() {
    let frame = "{\"type\":\"update\",\"payload\":{\"fsm_state\":\"EXECUTING\",\"step_index\":2,\"plan_length\":5,\"current_goal\":\"build base\",\"blackboard\":{\"game_basic_state\":\"ok\",\"scratchpad\":\"notes\",\"current_step\":{\"step\":\"scout\"},\"plan\":[{\"step\":\"scout\"},{\"step\":\"build\"}],\"action_result\":\"done\"}}}";
    let msg = decode(frame).unwrap();
    match msg {
        DashboardMessage::Update(p) => {
            assert_eq!(p.fsm_state, "EXECUTING");
            assert_eq!(p.step_index, 2);
            assert_eq!(p.plan_length, 5);
            assert_eq!(p.current_goal, "build base");
            assert_eq!(p.blackboard.plan.len(), 2);
            assert_eq!(
                p.blackboard.plan[1].get("step").and_then(|v| v.as_str()),
                Some("build")
            );
            assert_eq!(p.blackboard.action_result.as_str(), Some("done"));
        }
        _ => panic!("expected an update message"),
    }
}

#[test]
fn decode_accepts_negative_step_index() {
    let frame = "{\"type\":\"init\",\"payload\":{\"fsm_state\":\"X\",\"step_index\":-1,\"plan_length\":0,\"current_goal\":\"g\",\"blackboard\":{\"game_basic_state\":\"\",\"scratchpad\":\"\",\"current_step\":null,\"plan\":[],\"action_result\":null}}}";
    match decode(frame).unwrap() {
        DashboardMessage::Init(p) => assert_eq!(p.step_index, -1),
        _ => panic!("expected an init message"),
    }
}

#[test]
fn decode_log_round_trips_fields() {
    let frame = "{\"type\":\"log\",\"payload\":{\"level\":\"warn\",\"message\":\"low power\"}}";
    match decode(frame).unwrap() {
        DashboardMessage::Log(p) => {
            assert_eq!(p.level, "warn");
            assert_eq!(p.message, "low power");
        }
        _ => panic!("expected a log message"),
    }
}

#[test]
fn decode_agent_metrics_preserves_numbers_exactly() {
    let frame = "{\"type\":\"agent_metrics\",\"payload\":{\"tokens_per_min\":12.5,\"llm_calls_per_min\":3,\"active_tasks\":4,\"total_actions\":100,\"execution_volume\":7,\"failure_rate\":0.25,\"recovery_rate\":1.0,\"timestamp\":1700000000000}}";
    match decode(frame).unwrap() {
        DashboardMessage::AgentMetrics(p) => {
            assert_eq!(p.tokens_per_min, serde_json::Number::from_f64(12.5).unwrap());
            assert_eq!(p.llm_calls_per_min, serde_json::Number::from(3u64));
            assert_eq!(p.active_tasks, 4);
            assert_eq!(p.total_actions, 100);
            assert_eq!(p.execution_volume, 7);
            assert_eq!(p.failure_rate, serde_json::Number::from_f64(0.25).unwrap());
            assert_eq!(p.recovery_rate, serde_json::Number::from_f64(1.0).unwrap());
            assert_eq!(p.timestamp, 1700000000000);
        }
        _ => panic!("expected an agent metrics message"),
    }
}

#[test]
fn decode_game_metrics_round_trips_fields() {
    let frame = "{\"type\":\"game_metrics\",\"payload\":{\"fps\":59.9,\"frame_time_ms\":16.7,\"tick_rate\":20.0,\"entity_count\":321}}";
    match decode(frame).unwrap() {
        DashboardMessage::GameMetrics(p) => {
            assert_eq!(p.fps, serde_json::Number::from_f64(59.9).unwrap());
            assert_eq!(p.frame_time_ms, serde_json::Number::from_f64(16.7).unwrap());
            assert_eq!(p.tick_rate, serde_json::Number::from_f64(20.0).unwrap());
            assert_eq!(p.entity_count, 321);
        }
        _ => panic!("expected a game metrics message"),
    }
}

#[test]
fn decode_trace_event_keeps_optional_fields_present() {
    let frame = "{\"type\":\"trace_event\",\"payload\":{\"timestamp\":65000,\"event_type\":\"fsm_transition\",\"from_state\":\"IDLE\",\"to_state\":\"PLANNING\",\"action_name\":null,\"details\":{}}}";
    match decode(frame).unwrap() {
        DashboardMessage::TraceEvent(p) => {
            assert_eq!(p.timestamp, 65000);
            assert_eq!(p.event_type, "fsm_transition");
            assert_eq!(p.from_state.as_deref(), Some("IDLE"));
            assert_eq!(p.to_state.as_deref(), Some("PLANNING"));
            assert_eq!(p.action_name, None);
        }
        _ => panic!("expected a trace event"),
    }
}

#[test]
fn decode_trace_event_keeps_optional_fields_absent() {
    let frame = "{\"type\":\"trace_event\",\"payload\":{\"timestamp\":1,\"event_type\":\"action_start\",\"action_name\":\"scout\",\"details\":null}}";
    match decode(frame).unwrap() {
        DashboardMessage::TraceEvent(p) => {
            assert_eq!(p.from_state, None);
            assert_eq!(p.to_state, None);
            assert_eq!(p.action_name.as_deref(), Some("scout"));
        }
        _ => panic!("expected a trace event"),
    }
}

#[test]
fn decode_memory_update_round_trips_arrays() {
    let frame = "{\"type\":\"memory_update\",\"payload\":{\"total_entries\":12,\"recent_queries\":[{\"query\":\"enemy base\",\"hits\":3,\"timestamp\":5}],\"recent_additions\":[{\"key\":\"k1\",\"value\":\"v1\",\"timestamp\":6,\"is_new\":true},{\"key\":\"k2\",\"value\":\"v2\",\"timestamp\":7,\"is_new\":false}]}}";
    match decode(frame).unwrap() {
        DashboardMessage::MemoryUpdate(p) => {
            assert_eq!(p.total_entries, 12);
            assert_eq!(p.recent_queries.len(), 1);
            assert_eq!(p.recent_queries[0].query, "enemy base");
            assert_eq!(p.recent_queries[0].hits, 3);
            assert_eq!(p.recent_queries[0].timestamp, 5);
            assert_eq!(p.recent_additions.len(), 2);
            assert_eq!(p.recent_additions[0].key, "k1");
            assert!(p.recent_additions[0].is_new);
            assert_eq!(p.recent_additions[1].value, "v2");
            assert!(!p.recent_additions[1].is_new);
        }
        _ => panic!("expected a memory update"),
    }
}

#[test]
fn decode_ignores_key_order_and_extra_fields() {
    let frame = "{\"extra\":1,\"payload\":{\"message\":\"m\",\"level\":\"info\",\"unused\":true},\"type\":\"log\"}";
    match decode(frame).unwrap() {
        DashboardMessage::Log(p) => {
            assert_eq!(p.level, "info");
            assert_eq!(p.message, "m");
        }
        _ => panic!("expected a log message"),
    }
}

#[test]
fn decode_rejects_invalid_json() {
    assert_eq!(decode("{not json").unwrap_err(), DecodeError::NotJson);
    assert_eq!(decode("").unwrap_err(), DecodeError::NotJson);
}

#[test]
fn decode_rejects_missing_or_nonstring_type() {
    assert_eq!(
        decode("{\"payload\":{}}").unwrap_err(),
        DecodeError::MissingType
    );
    assert_eq!(
        decode("{\"type\":7,\"payload\":{}}").unwrap_err(),
        DecodeError::MissingType
    );
    assert_eq!(decode("[1,2,3]").unwrap_err(), DecodeError::MissingType);
}

#[test]
fn decode_rejects_unknown_discriminant() {
    assert_eq!(
        decode("{\"type\":\"telemetry\",\"payload\":{}}").unwrap_err(),
        DecodeError::UnknownType
    );
}

#[test]
fn decode_rejects_bad_payloads() {
    // payload missing entirely
    assert_eq!(
        decode("{\"type\":\"log\"}").unwrap_err(),
        DecodeError::BadPayload
    );
    // payload not an object
    assert_eq!(
        decode("{\"type\":\"log\",\"payload\":3}").unwrap_err(),
        DecodeError::BadPayload
    );
    // required field missing
    assert_eq!(
        decode("{\"type\":\"log\",\"payload\":{\"level\":\"info\"}}").unwrap_err(),
        DecodeError::BadPayload
    );
    // wrong primitive type for a field
    assert_eq!(
        decode("{\"type\":\"log\",\"payload\":{\"level\":1,\"message\":\"m\"}}").unwrap_err(),
        DecodeError::BadPayload
    );
    // counter field must be a nonnegative integer
    assert_eq!(
        decode("{\"type\":\"game_metrics\",\"payload\":{\"fps\":1,\"frame_time_ms\":1,\"tick_rate\":1,\"entity_count\":1.5}}")
            .unwrap_err(),
        DecodeError::BadPayload
    );
    // step_index out of i32 range
    assert_eq!(
        decode("{\"type\":\"init\",\"payload\":{\"fsm_state\":\"X\",\"step_index\":3000000000,\"plan_length\":0,\"current_goal\":\"\",\"blackboard\":{\"game_basic_state\":\"\",\"scratchpad\":\"\",\"current_step\":null,\"plan\":[],\"action_result\":null}}}")
            .unwrap_err(),
        DecodeError::BadPayload
    );
    // one bad element fails the whole array
    assert_eq!(
        decode("{\"type\":\"memory_update\",\"payload\":{\"total_entries\":1,\"recent_queries\":[{\"query\":\"q\",\"hits\":\"no\",\"timestamp\":1}],\"recent_additions\":[]}}")
            .unwrap_err(),
        DecodeError::BadPayload
    );
}

#[test]
fn decode_optional_field_of_wrong_type_is_rejected() {
    let frame = "{\"type\":\"trace_event\",\"payload\":{\"timestamp\":1,\"event_type\":\"log\",\"from_state\":5,\"details\":null}}";
    assert_eq!(decode(frame).unwrap_err(), DecodeError::BadPayload);
}

#[test]
fn encode_produces_exact_command_frame() {
    let text = encode(&ClientCommand::SendCommand("move north".to_string()));
    assert_eq!(
        text,
        "{\"type\":\"command\",\"payload\":{\"command\":\"move north\"}}"
    );
}

#[test]
fn encode_matches_structurally() {
    let text = encode(&ClientCommand::SendCommand("move north".to_string()));
    let got: serde_json::Value = serde_json::from_str(&text).unwrap();
    let expected: serde_json::Value =
        serde_json::from_str("{\"payload\":{\"command\":\"move north\"},\"type\":\"command\"}")
            .unwrap();
    assert_eq!(got, expected);
}

#[test]
fn encode_escapes_special_characters() {
    let text = encode(&ClientCommand::SendCommand(
        "say \"hi\" \\ now\n\t\u{1}".to_string(),
    ));
    assert_eq!(
        text,
        "{\"type\":\"command\",\"payload\":{\"command\":\"say \\\"hi\\\" \\\\ now\\n\\t\\u0001\"}}"
    );
    // and the escaped frame parses back to the submitted text
    let v: serde_json::Value = serde_json::from_str(&text).unwrap();
    assert_eq!(
        v.get("payload").and_then(|p| p.get("command")).and_then(|c| c.as_str()),
        Some("say \"hi\" \\ now\n\t\u{1}")
    );
}

#[test]
fn encode_keeps_unicode_text() {
    let text = encode(&ClientCommand::SendCommand("déplacer ↑".to_string()));
    let v: serde_json::Value = serde_json::from_str(&text).unwrap();
    assert_eq!(
        v.get("payload").and_then(|p| p.get("command")).and_then(|c| c.as_str()),
        Some("déplacer ↑")
    );
}

#[test]
fn describe_names_each_failure() {
    assert_eq!(DecodeError::NotJson.describe(), "frame is not valid JSON");
    assert_eq!(DecodeError::MissingType.describe(), "frame has no type field");
    assert_eq!(
        DecodeError::UnknownType.describe(),
        "frame type is not recognized"
    );
    assert_eq!(
        DecodeError::BadPayload.describe(),
        "frame payload does not match its type"
    );
}
