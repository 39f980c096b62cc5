//! The wire codec: pure, stateless translation between typed messages and
//! wire text frames.
//!
//! An inbound frame is a JSON object with a `type` discriminant string and a
//! `payload` object whose shape depends on the discriminant. [`decode`]
//! translates a frame into a [`DashboardMessage`] or reports a recoverable
//! [`DecodeError`]; its contract pins the result down to [`decode_spec`], a
//! total function on the frame's [`Json`] model. [`encode`] renders the one
//! outbound command and its contract gives the exact output text.

use vstd::prelude::*;

use crate::json::{
    get_array, get_bool, get_field, get_i64, get_number, get_str, get_u64, is_null, json_model,
    parse_json, parsed, str_eq, Json, NumRep,
};
use crate::messages::{
    AgentMetricsModel, AgentMetricsPayload, BlackboardData, BlackboardModel, ClientCommand,
    CommandModel, DashboardMessage, FsmStateModel, FsmStatePayload, GameMetricsModel,
    GameMetricsPayload, LogModel, LogPayload, MemoryEntry, MemoryEntryModel, MemoryModel,
    MemoryPayload, MemoryQuery, MemoryQueryModel, MessageModel, TraceEventModel,
    TraceEventPayload,
};
use vstd::std_specs::iter::IteratorSpec;
use vstd::string::StringExecFns;

verus! {

/// Why a frame failed to decode. Every failure is recoverable: the frame is
/// discarded and the connection continues.
#[derive(Clone, Copy, Debug, PartialEq, Eq, Structural)]
pub enum DecodeError {
    /// The frame is not a JSON document.
    NotJson,
    /// The frame is not an object with a string `type` field.
    MissingType,
    /// The `type` field is not a recognized discriminant.
    UnknownType,
    /// The `payload` field is missing or does not match the shape that the
    /// discriminant demands.
    BadPayload,
}

impl DecodeError {
    pub open spec fn describe_spec(self) -> Seq<char> {
        match self {
            DecodeError::NotJson => "frame is not valid JSON"@,
            DecodeError::MissingType => "frame has no type field"@,
            DecodeError::UnknownType => "frame type is not recognized"@,
            DecodeError::BadPayload => "frame payload does not match its type"@,
        }
    }

    /// A short human-readable account of the failure.
    pub fn describe(&self) -> (r: &'static str)
        ensures
            r@ == self.describe_spec(),
    {
        match self {
            DecodeError::NotJson => "frame is not valid JSON",
            DecodeError::MissingType => "frame has no type field",
            DecodeError::UnknownType => "frame type is not recognized",
            DecodeError::BadPayload => "frame payload does not match its type",
        }
    }
}

// ---------------------------------------------------------------------------
// Field selectors on the Json model
// ---------------------------------------------------------------------------

/// The value under key `k`, where `j` is an object that has that key.
pub open spec fn field_of(j: Json, k: Seq<char>) -> Option<Json> {
    match j {
        Json::Obj(o) => if o.contains_key(k) {
            Some(o[k])
        } else {
            None
        },
        _ => None,
    }
}

/// A required string field.
pub open spec fn str_field(j: Json, k: Seq<char>) -> Option<Seq<char>> {
    match field_of(j, k) {
        Some(Json::Str(s)) => Some(s),
        _ => None,
    }
}

/// A required nonnegative integer field.
pub open spec fn u64_field(j: Json, k: Seq<char>) -> Option<u64> {
    match field_of(j, k) {
        Some(Json::Num(NumRep::UInt(n))) => Some(n),
        _ => None,
    }
}

/// A required integer field that must fit in `i32`.
pub open spec fn i32_field(j: Json, k: Seq<char>) -> Option<i32> {
    match field_of(j, k) {
        Some(Json::Num(NumRep::UInt(n))) => if n <= i32::MAX as u64 {
            Some(n as i32)
        } else {
            None
        },
        Some(Json::Num(NumRep::NInt(n))) => if i32::MIN as i64 <= n && n <= i32::MAX as i64 {
            Some(n as i32)
        } else {
            None
        },
        _ => None,
    }
}

/// A required numeric field, kept exactly as it appeared on the wire.
pub open spec fn num_field(j: Json, k: Seq<char>) -> Option<NumRep> {
    match field_of(j, k) {
        Some(Json::Num(rep)) => Some(rep),
        _ => None,
    }
}

/// A required boolean field.
pub open spec fn bool_field(j: Json, k: Seq<char>) -> Option<bool> {
    match field_of(j, k) {
        Some(Json::Bool(b)) => Some(b),
        _ => None,
    }
}

/// An optional string field: absent or null decodes to the explicit absent
/// marker, a string to its content, and anything else is a failure.
pub open spec fn opt_str_field(j: Json, k: Seq<char>) -> Option<Option<Seq<char>>> {
    match field_of(j, k) {
        None => Some(None),
        Some(Json::Null) => Some(None),
        Some(Json::Str(s)) => Some(Some(s)),
        Some(_) => None,
    }
}

/// A required field of no fixed schema.
pub open spec fn json_field(j: Json, k: Seq<char>) -> Option<Json> {
    field_of(j, k)
}

/// A required array field.
pub open spec fn arr_field(j: Json, k: Seq<char>) -> Option<Seq<Json>> {
    match field_of(j, k) {
        Some(Json::Arr(s)) => Some(s),
        _ => None,
    }
}

/// Element-wise decoding of an array, failing if any element fails.
pub open spec fn seq_models<A>(s: Seq<Json>, f: spec_fn(Json) -> Option<A>) -> Option<Seq<A>>
    decreases s.len(),
{
    if s.len() == 0 {
        Some(Seq::empty())
    } else {
        match seq_models(s.drop_last(), f) {
            Some(pre) => match f(s.last()) {
                Some(a) => Some(pre.push(a)),
                None => None,
            },
            None => None,
        }
    }
}

// ---------------------------------------------------------------------------
// Payload shapes
// ---------------------------------------------------------------------------

pub open spec fn blackboard_of(j: Json) -> Option<BlackboardModel> {
    match (
        str_field(j, "game_basic_state"@),
        str_field(j, "scratchpad"@),
        json_field(j, "current_step"@),
        arr_field(j, "plan"@),
        json_field(j, "action_result"@),
    ) {
        (Some(g), Some(s), Some(c), Some(p), Some(a)) => Some(
            BlackboardModel {
                game_basic_state: g,
                scratchpad: s,
                current_step: c,
                plan: p,
                action_result: a,
            },
        ),
        _ => None,
    }
}

pub open spec fn fsm_of(j: Json) -> Option<FsmStateModel> {
    match (
        str_field(j, "fsm_state"@),
        i32_field(j, "step_index"@),
        u64_field(j, "plan_length"@),
        str_field(j, "current_goal"@),
        field_of(j, "blackboard"@),
    ) {
        (Some(f), Some(si), Some(pl), Some(g), Some(bb)) => match blackboard_of(bb) {
            Some(b) => Some(
                FsmStateModel {
                    fsm_state: f,
                    step_index: si,
                    plan_length: pl,
                    current_goal: g,
                    blackboard: b,
                },
            ),
            None => None,
        },
        _ => None,
    }
}

pub open spec fn log_of(j: Json) -> Option<LogModel> {
    match (str_field(j, "level"@), str_field(j, "message"@)) {
        (Some(l), Some(m)) => Some(LogModel { level: l, message: m }),
        _ => None,
    }
}

pub open spec fn agent_metrics_of(j: Json) -> Option<AgentMetricsModel> {
    match (
        num_field(j, "tokens_per_min"@),
        num_field(j, "llm_calls_per_min"@),
        u64_field(j, "active_tasks"@),
        u64_field(j, "total_actions"@),
        u64_field(j, "execution_volume"@),
        num_field(j, "failure_rate"@),
        num_field(j, "recovery_rate"@),
        u64_field(j, "timestamp"@),
    ) {
        (Some(tpm), Some(lpm), Some(at), Some(ta), Some(ev), Some(fr), Some(rr), Some(ts)) => Some(
            AgentMetricsModel {
                tokens_per_min: tpm,
                llm_calls_per_min: lpm,
                active_tasks: at,
                total_actions: ta,
                execution_volume: ev,
                failure_rate: fr,
                recovery_rate: rr,
                timestamp: ts,
            },
        ),
        _ => None,
    }
}

pub open spec fn game_metrics_of(j: Json) -> Option<GameMetricsModel> {
    match (
        num_field(j, "fps"@),
        num_field(j, "frame_time_ms"@),
        num_field(j, "tick_rate"@),
        u64_field(j, "entity_count"@),
    ) {
        (Some(fps), Some(ft), Some(tr), Some(ec)) => Some(
            GameMetricsModel { fps: fps, frame_time_ms: ft, tick_rate: tr, entity_count: ec },
        ),
        _ => None,
    }
}

pub open spec fn trace_of(j: Json) -> Option<TraceEventModel> {
    match (
        u64_field(j, "timestamp"@),
        str_field(j, "event_type"@),
        opt_str_field(j, "from_state"@),
        opt_str_field(j, "to_state"@),
        opt_str_field(j, "action_name"@),
        json_field(j, "details"@),
    ) {
        (Some(ts), Some(et), Some(fs), Some(tos), Some(an), Some(d)) => Some(
            TraceEventModel {
                timestamp: ts,
                event_type: et,
                from_state: fs,
                to_state: tos,
                action_name: an,
                details: d,
            },
        ),
        _ => None,
    }
}

pub open spec fn query_of(j: Json) -> Option<MemoryQueryModel> {
    match (str_field(j, "query"@), u64_field(j, "hits"@), u64_field(j, "timestamp"@)) {
        (Some(q), Some(h), Some(t)) => Some(MemoryQueryModel { query: q, hits: h, timestamp: t }),
        _ => None,
    }
}

pub open spec fn entry_of(j: Json) -> Option<MemoryEntryModel> {
    match (
        str_field(j, "key"@),
        str_field(j, "value"@),
        u64_field(j, "timestamp"@),
        bool_field(j, "is_new"@),
    ) {
        (Some(k), Some(v), Some(t), Some(n)) => Some(
            MemoryEntryModel { key: k, value: v, timestamp: t, is_new: n },
        ),
        _ => None,
    }
}

pub open spec fn memory_of(j: Json) -> Option<MemoryModel> {
    match (
        u64_field(j, "total_entries"@),
        arr_field(j, "recent_queries"@),
        arr_field(j, "recent_additions"@),
    ) {
        (Some(te), Some(qs), Some(es)) => match (
            seq_models(qs, |e: Json| query_of(e)),
            seq_models(es, |e: Json| entry_of(e)),
        ) {
            (Some(qm), Some(em)) => Some(
                MemoryModel { total_entries: te, recent_queries: qm, recent_additions: em },
            ),
            _ => None,
        },
        _ => None,
    }
}

// ---------------------------------------------------------------------------
// The decoding function on the model
// ---------------------------------------------------------------------------

/// Whether `t` is one of the wire discriminants this protocol knows.
pub open spec fn known_type(t: Seq<char>) -> bool {
    ||| t == "init"@
    ||| t == "update"@
    ||| t == "log"@
    ||| t == "agent_metrics"@
    ||| t == "game_metrics"@
    ||| t == "trace_event"@
    ||| t == "memory_update"@
}

/// The message a known discriminant and a payload decode to.
pub open spec fn payload_model(t: Seq<char>, p: Json) -> Option<MessageModel> {
    if t == "init"@ {
        match fsm_of(p) {
            Some(f) => Some(MessageModel::Init(f)),
            None => None,
        }
    } else if t == "update"@ {
        match fsm_of(p) {
            Some(f) => Some(MessageModel::Update(f)),
            None => None,
        }
    } else if t == "log"@ {
        match log_of(p) {
            Some(l) => Some(MessageModel::Log(l)),
            None => None,
        }
    } else if t == "agent_metrics"@ {
        match agent_metrics_of(p) {
            Some(m) => Some(MessageModel::AgentMetrics(m)),
            None => None,
        }
    } else if t == "game_metrics"@ {
        match game_metrics_of(p) {
            Some(m) => Some(MessageModel::GameMetrics(m)),
            None => None,
        }
    } else if t == "trace_event"@ {
        match trace_of(p) {
            Some(m) => Some(MessageModel::TraceEvent(m)),
            None => None,
        }
    } else if t == "memory_update"@ {
        match memory_of(p) {
            Some(m) => Some(MessageModel::MemoryUpdate(m)),
            None => None,
        }
    } else {
        None
    }
}

/// What decoding a frame returns, as a total function of the frame's model.
pub open spec fn decode_spec(p: Option<Json>) -> Result<MessageModel, DecodeError> {
    match p {
        None => Err(DecodeError::NotJson),
        Some(j) => match str_field(j, "type"@) {
            None => Err(DecodeError::MissingType),
            Some(t) => if !known_type(t) {
                Err(DecodeError::UnknownType)
            } else {
                match field_of(j, "payload"@) {
                    None => Err(DecodeError::BadPayload),
                    Some(p) => match payload_model(t, p) {
                        Some(m) => Ok(m),
                        None => Err(DecodeError::BadPayload),
                    },
                }
            },
        },
    }
}

// ---------------------------------------------------------------------------
// Verified field extraction
// ---------------------------------------------------------------------------

fn field_str(pv: &serde_json::Value, key: &str) -> (r: Option<String>)
    ensures
        match r {
            Some(s) => str_field(json_model(*pv), key@) == Some(s@),
            None => str_field(json_model(*pv), key@) is None,
        },
{
    match get_field(pv, key) {
        Some(f) => match get_str(f) {
            Some(s) => Some(s.to_owned()),
            None => None,
        },
        None => None,
    }
}

fn field_u64(pv: &serde_json::Value, key: &str) -> (r: Option<u64>)
    ensures
        r == u64_field(json_model(*pv), key@),
{
    match get_field(pv, key) {
        Some(f) => get_u64(f),
        None => None,
    }
}

fn field_i32(pv: &serde_json::Value, key: &str) -> (r: Option<i32>)
    ensures
        r == i32_field(json_model(*pv), key@),
{
    match get_field(pv, key) {
        Some(f) => match get_i64(f) {
            Some(x) => if i32::MIN as i64 <= x && x <= i32::MAX as i64 {
                Some(x as i32)
            } else {
                None
            },
            None => None,
        },
        None => None,
    }
}

fn field_num(pv: &serde_json::Value, key: &str) -> (r: Option<serde_json::Number>)
    ensures
        match r {
            Some(n) => num_field(json_model(*pv), key@) == Some(crate::json::num_model(n)),
            None => num_field(json_model(*pv), key@) is None,
        },
{
    match get_field(pv, key) {
        Some(f) => get_number(f),
        None => None,
    }
}

fn field_bool(pv: &serde_json::Value, key: &str) -> (r: Option<bool>)
    ensures
        r == bool_field(json_model(*pv), key@),
{
    match get_field(pv, key) {
        Some(f) => get_bool(f),
        None => None,
    }
}

fn field_opt_str(pv: &serde_json::Value, key: &str) -> (r: Option<Option<String>>)
    ensures
        match r {
            Some(s) => opt_str_field(json_model(*pv), key@) == Some(
                crate::messages::opt_str_view(s),
            ),
            None => opt_str_field(json_model(*pv), key@) is None,
        },
{
    match get_field(pv, key) {
        None => Some(None),
        Some(f) => if is_null(f) {
            Some(None)
        } else {
            match get_str(f) {
                Some(s) => Some(Some(s.to_owned())),
                None => None,
            }
        },
    }
}

fn field_json(pv: &serde_json::Value, key: &str) -> (r: Option<serde_json::Value>)
    ensures
        match r {
            Some(v) => json_field(json_model(*pv), key@) == Some(json_model(v)),
            None => json_field(json_model(*pv), key@) is None,
        },
{
    match get_field(pv, key) {
        Some(f) => Some(f.clone()),
        None => None,
    }
}

fn field_arr<'a>(pv: &'a serde_json::Value, key: &str) -> (r: Option<&'a Vec<serde_json::Value>>)
    ensures
        match r {
            Some(a) => (arr_field(json_model(*pv), key@) matches Some(s) && s.len() == a@.len()
                && (forall|i: int| 0 <= i < s.len() ==> json_model(#[trigger] a@[i]) == s[i])),
            None => arr_field(json_model(*pv), key@) is None,
        },
{
    match get_field(pv, key) {
        Some(f) => get_array(f),
        None => None,
    }
}

// ---------------------------------------------------------------------------
// Verified payload decoders
// ---------------------------------------------------------------------------

fn clone_values(a: &Vec<serde_json::Value>) -> (r: Vec<serde_json::Value>)
    ensures
        r@.len() == a@.len(),
        forall|i: int| 0 <= i < a@.len() ==> json_model(#[trigger] r@[i]) == json_model(a@[i]),
{
    let mut out: Vec<serde_json::Value> = Vec::new();
    let mut i: usize = 0;
    while i < a.len()
        invariant
            i <= a@.len(),
            out@.len() == i,
            forall|k: int| 0 <= k < i ==> json_model(#[trigger] out@[k]) == json_model(a@[k]),
        decreases a@.len() - i,
    {
        out.push(a[i].clone());
        i = i + 1;
    }
    out
}

fn decode_blackboard(pv: &serde_json::Value) -> (r: Option<BlackboardData>)
    ensures
        match r {
            Some(b) => blackboard_of(json_model(*pv)) == Some(b@),
            None => blackboard_of(json_model(*pv)) is None,
        },
{
    let game_basic_state = match field_str(pv, "game_basic_state") {
        Some(s) => s,
        None => {
            return None;
        },
    };
    let scratchpad = match field_str(pv, "scratchpad") {
        Some(s) => s,
        None => {
            return None;
        },
    };
    let current_step = match field_json(pv, "current_step") {
        Some(v) => v,
        None => {
            return None;
        },
    };
    let plan_src = match field_arr(pv, "plan") {
        Some(a) => a,
        None => {
            return None;
        },
    };
    let action_result = match field_json(pv, "action_result") {
        Some(v) => v,
        None => {
            return None;
        },
    };
    let plan = clone_values(plan_src);
    let b = BlackboardData { game_basic_state, scratchpad, current_step, plan, action_result };
    proof {
        let s = arr_field(json_model(*pv), "plan"@).unwrap();
        assert(b.plan@.map_values(|v: serde_json::Value| json_model(v)) =~= s);
    }
    Some(b)
}

fn decode_fsm(pv: &serde_json::Value) -> (r: Option<FsmStatePayload>)
    ensures
        match r {
            Some(m) => fsm_of(json_model(*pv)) == Some(m@),
            None => fsm_of(json_model(*pv)) is None,
        },
{
    let fsm_state = match field_str(pv, "fsm_state") {
        Some(s) => s,
        None => {
            return None;
        },
    };
    let step_index = match field_i32(pv, "step_index") {
        Some(v) => v,
        None => {
            return None;
        },
    };
    let plan_length = match field_u64(pv, "plan_length") {
        Some(v) => v,
        None => {
            return None;
        },
    };
    let current_goal = match field_str(pv, "current_goal") {
        Some(s) => s,
        None => {
            return None;
        },
    };
    let bb_val = match get_field(pv, "blackboard") {
        Some(f) => f,
        None => {
            return None;
        },
    };
    let blackboard = match decode_blackboard(bb_val) {
        Some(b) => b,
        None => {
            return None;
        },
    };
    Some(FsmStatePayload { fsm_state, step_index, plan_length, current_goal, blackboard })
}

fn decode_log(pv: &serde_json::Value) -> (r: Option<LogPayload>)
    ensures
        match r {
            Some(m) => log_of(json_model(*pv)) == Some(m@),
            None => log_of(json_model(*pv)) is None,
        },
{
    let level = match field_str(pv, "level") {
        Some(s) => s,
        None => {
            return None;
        },
    };
    let message = match field_str(pv, "message") {
        Some(s) => s,
        None => {
            return None;
        },
    };
    Some(LogPayload { level, message })
}

fn decode_agent_metrics(pv: &serde_json::Value) -> (r: Option<AgentMetricsPayload>)
    ensures
        match r {
            Some(m) => agent_metrics_of(json_model(*pv)) == Some(m@),
            None => agent_metrics_of(json_model(*pv)) is None,
        },
{
    let tokens_per_min = match field_num(pv, "tokens_per_min") {
        Some(n) => n,
        None => {
            return None;
        },
    };
    let llm_calls_per_min = match field_num(pv, "llm_calls_per_min") {
        Some(n) => n,
        None => {
            return None;
        },
    };
    let active_tasks = match field_u64(pv, "active_tasks") {
        Some(v) => v,
        None => {
            return None;
        },
    };
    let total_actions = match field_u64(pv, "total_actions") {
        Some(v) => v,
        None => {
            return None;
        },
    };
    let execution_volume = match field_u64(pv, "execution_volume") {
        Some(v) => v,
        None => {
            return None;
        },
    };
    let failure_rate = match field_num(pv, "failure_rate") {
        Some(n) => n,
        None => {
            return None;
        },
    };
    let recovery_rate = match field_num(pv, "recovery_rate") {
        Some(n) => n,
        None => {
            return None;
        },
    };
    let timestamp = match field_u64(pv, "timestamp") {
        Some(v) => v,
        None => {
            return None;
        },
    };
    Some(
        AgentMetricsPayload {
            tokens_per_min,
            llm_calls_per_min,
            active_tasks,
            total_actions,
            execution_volume,
            failure_rate,
            recovery_rate,
            timestamp,
        },
    )
}

fn decode_game_metrics(pv: &serde_json::Value) -> (r: Option<GameMetricsPayload>)
    ensures
        match r {
            Some(m) => game_metrics_of(json_model(*pv)) == Some(m@),
            None => game_metrics_of(json_model(*pv)) is None,
        },
{
    let fps = match field_num(pv, "fps") {
        Some(n) => n,
        None => {
            return None;
        },
    };
    let frame_time_ms = match field_num(pv, "frame_time_ms") {
        Some(n) => n,
        None => {
            return None;
        },
    };
    let tick_rate = match field_num(pv, "tick_rate") {
        Some(n) => n,
        None => {
            return None;
        },
    };
    let entity_count = match field_u64(pv, "entity_count") {
        Some(v) => v,
        None => {
            return None;
        },
    };
    Some(GameMetricsPayload { fps, frame_time_ms, tick_rate, entity_count })
}

fn decode_trace(pv: &serde_json::Value) -> (r: Option<TraceEventPayload>)
    ensures
        match r {
            Some(m) => trace_of(json_model(*pv)) == Some(m@),
            None => trace_of(json_model(*pv)) is None,
        },
{
    let timestamp = match field_u64(pv, "timestamp") {
        Some(v) => v,
        None => {
            return None;
        },
    };
    let event_type = match field_str(pv, "event_type") {
        Some(s) => s,
        None => {
            return None;
        },
    };
    let from_state = match field_opt_str(pv, "from_state") {
        Some(v) => v,
        None => {
            return None;
        },
    };
    let to_state = match field_opt_str(pv, "to_state") {
        Some(v) => v,
        None => {
            return None;
        },
    };
    let action_name = match field_opt_str(pv, "action_name") {
        Some(v) => v,
        None => {
            return None;
        },
    };
    let details = match field_json(pv, "details") {
        Some(v) => v,
        None => {
            return None;
        },
    };
    Some(TraceEventPayload { timestamp, event_type, from_state, to_state, action_name, details })
}

fn decode_query(v: &serde_json::Value) -> (r: Option<MemoryQuery>)
    ensures
        match r {
            Some(m) => query_of(json_model(*v)) == Some(m@),
            None => query_of(json_model(*v)) is None,
        },
{
    let query = match field_str(v, "query") {
        Some(s) => s,
        None => {
            return None;
        },
    };
    let hits = match field_u64(v, "hits") {
        Some(n) => n,
        None => {
            return None;
        },
    };
    let timestamp = match field_u64(v, "timestamp") {
        Some(n) => n,
        None => {
            return None;
        },
    };
    Some(MemoryQuery { query, hits, timestamp })
}

fn decode_entry(v: &serde_json::Value) -> (r: Option<MemoryEntry>)
    ensures
        match r {
            Some(m) => entry_of(json_model(*v)) == Some(m@),
            None => entry_of(json_model(*v)) is None,
        },
{
    let key = match field_str(v, "key") {
        Some(s) => s,
        None => {
            return None;
        },
    };
    let value = match field_str(v, "value") {
        Some(s) => s,
        None => {
            return None;
        },
    };
    let timestamp = match field_u64(v, "timestamp") {
        Some(n) => n,
        None => {
            return None;
        },
    };
    let is_new = match field_bool(v, "is_new") {
        Some(b) => b,
        None => {
            return None;
        },
    };
    Some(MemoryEntry { key, value, timestamp, is_new })
}

/// If one element of an array fails to decode, the whole array fails.
proof fn lemma_seq_models_none<A>(s: Seq<Json>, f: spec_fn(Json) -> Option<A>, i: int)
    requires
        0 <= i < s.len(),
        f(s[i]) is None,
    ensures
        seq_models(s, f) is None,
    decreases s.len(),
{
    if i < s.len() - 1 {
        lemma_seq_models_none(s.drop_last(), f, i);
    }
}

fn decode_queries(a: &Vec<serde_json::Value>, Ghost(s): Ghost<Seq<Json>>) -> (r: Option<
    Vec<MemoryQuery>,
>)
    requires
        s.len() == a@.len(),
        forall|i: int| 0 <= i < s.len() ==> json_model(#[trigger] a@[i]) == s[i],
    ensures
        match r {
            Some(qs) => seq_models(s, |e: Json| query_of(e)) == Some(
                qs@.map_values(|q: MemoryQuery| q@),
            ),
            None => seq_models(s, |e: Json| query_of(e)) is None,
        },
{
    let ghost f = |e: Json| query_of(e);
    let mut out: Vec<MemoryQuery> = Vec::new();
    let mut i: usize = 0;
    while i < a.len()
        invariant
            i <= a@.len(),
            s.len() == a@.len(),
            forall|k: int| 0 <= k < s.len() ==> json_model(#[trigger] a@[k]) == s[k],
            out@.len() == i,
            seq_models(s.take(i as int), f) == Some(out@.map_values(|q: MemoryQuery| q@)),
            f == (|e: Json| query_of(e)),
        decreases a@.len() - i,
    {
        match decode_query(&a[i]) {
            Some(q) => {
                out.push(q);
                proof {
                    assert(s.take(i + 1).drop_last() =~= s.take(i as int));
                    assert(s.take(i + 1).last() == s[i as int]);
                    assert(out@.map_values(|q: MemoryQuery| q@) =~= seq_models(
                        s.take(i as int),
                        f,
                    ).unwrap().push(out@.last()@));
                }
            },
            None => {
                proof {
                    lemma_seq_models_none(s, f, i as int);
                }
                return None;
            },
        }
        i = i + 1;
    }
    proof {
        assert(s.take(a@.len() as int) =~= s);
    }
    Some(out)
}

fn decode_entries(a: &Vec<serde_json::Value>, Ghost(s): Ghost<Seq<Json>>) -> (r: Option<
    Vec<MemoryEntry>,
>)
    requires
        s.len() == a@.len(),
        forall|i: int| 0 <= i < s.len() ==> json_model(#[trigger] a@[i]) == s[i],
    ensures
        match r {
            Some(es) => seq_models(s, |e: Json| entry_of(e)) == Some(
                es@.map_values(|q: MemoryEntry| q@),
            ),
            None => seq_models(s, |e: Json| entry_of(e)) is None,
        },
{
    let ghost f = |e: Json| entry_of(e);
    let mut out: Vec<MemoryEntry> = Vec::new();
    let mut i: usize = 0;
    while i < a.len()
        invariant
            i <= a@.len(),
            s.len() == a@.len(),
            forall|k: int| 0 <= k < s.len() ==> json_model(#[trigger] a@[k]) == s[k],
            out@.len() == i,
            seq_models(s.take(i as int), f) == Some(out@.map_values(|q: MemoryEntry| q@)),
            f == (|e: Json| entry_of(e)),
        decreases a@.len() - i,
    {
        match decode_entry(&a[i]) {
            Some(q) => {
                out.push(q);
                proof {
                    assert(s.take(i + 1).drop_last() =~= s.take(i as int));
                    assert(s.take(i + 1).last() == s[i as int]);
                    assert(out@.map_values(|q: MemoryEntry| q@) =~= seq_models(
                        s.take(i as int),
                        f,
                    ).unwrap().push(out@.last()@));
                }
            },
            None => {
                proof {
                    lemma_seq_models_none(s, f, i as int);
                }
                return None;
            },
        }
        i = i + 1;
    }
    proof {
        assert(s.take(a@.len() as int) =~= s);
    }
    Some(out)
}

fn decode_memory(pv: &serde_json::Value) -> (r: Option<MemoryPayload>)
    ensures
        match r {
            Some(m) => memory_of(json_model(*pv)) == Some(m@),
            None => memory_of(json_model(*pv)) is None,
        },
{
    let total_entries = match field_u64(pv, "total_entries") {
        Some(v) => v,
        None => {
            return None;
        },
    };
    let queries_src = match field_arr(pv, "recent_queries") {
        Some(a) => a,
        None => {
            return None;
        },
    };
    let ghost qs = arr_field(json_model(*pv), "recent_queries"@).unwrap();
    let recent_queries = match decode_queries(queries_src, Ghost(qs)) {
        Some(v) => v,
        None => {
            return None;
        },
    };
    let entries_src = match field_arr(pv, "recent_additions") {
        Some(a) => a,
        None => {
            return None;
        },
    };
    let ghost es = arr_field(json_model(*pv), "recent_additions"@).unwrap();
    let recent_additions = match decode_entries(entries_src, Ghost(es)) {
        Some(v) => v,
        None => {
            return None;
        },
    };
    Some(MemoryPayload { total_entries, recent_queries, recent_additions })
}

// ---------------------------------------------------------------------------
// decode
// ---------------------------------------------------------------------------

/// Decodes one wire frame.
///
/// The result is exactly what [`decode_spec`] says of the frame's parsed
/// model: a typed message for a well-formed frame of a known discriminant,
/// and the matching recoverable error otherwise.
pub fn decode(frame: &str) -> (r: Result<DashboardMessage, DecodeError>)
    ensures
        match r {
            Ok(m) => decode_spec(parsed(frame@)) == Ok::<MessageModel, DecodeError>(m@),
            Err(e) => decode_spec(parsed(frame@)) == Err::<MessageModel, DecodeError>(e),
        },
{
    let v = match parse_json(frame) {
        Some(v) => v,
        None => {
            return Err(DecodeError::NotJson);
        },
    };
    let tv = match get_field(&v, "type") {
        Some(tv) => tv,
        None => {
            return Err(DecodeError::MissingType);
        },
    };
    let t = match get_str(tv) {
        Some(t) => t,
        None => {
            return Err(DecodeError::MissingType);
        },
    };
    if !(str_eq(t, "init") || str_eq(t, "update") || str_eq(t, "log") || str_eq(t, "agent_metrics")
        || str_eq(t, "game_metrics") || str_eq(t, "trace_event") || str_eq(t, "memory_update")) {
        return Err(DecodeError::UnknownType);
    }
    let pv = match get_field(&v, "payload") {
        Some(pv) => pv,
        None => {
            return Err(DecodeError::BadPayload);
        },
    };
    if str_eq(t, "init") {
        match decode_fsm(pv) {
            Some(p) => Ok(DashboardMessage::Init(p)),
            None => Err(DecodeError::BadPayload),
        }
    } else if str_eq(t, "update") {
        match decode_fsm(pv) {
            Some(p) => Ok(DashboardMessage::Update(p)),
            None => Err(DecodeError::BadPayload),
        }
    } else if str_eq(t, "log") {
        match decode_log(pv) {
            Some(p) => Ok(DashboardMessage::Log(p)),
            None => Err(DecodeError::BadPayload),
        }
    } else if str_eq(t, "agent_metrics") {
        match decode_agent_metrics(pv) {
            Some(p) => Ok(DashboardMessage::AgentMetrics(p)),
            None => Err(DecodeError::BadPayload),
        }
    } else if str_eq(t, "game_metrics") {
        match decode_game_metrics(pv) {
            Some(p) => Ok(DashboardMessage::GameMetrics(p)),
            None => Err(DecodeError::BadPayload),
        }
    } else if str_eq(t, "trace_event") {
        match decode_trace(pv) {
            Some(p) => Ok(DashboardMessage::TraceEvent(p)),
            None => Err(DecodeError::BadPayload),
        }
    } else {
        match decode_memory(pv) {
            Some(p) => Ok(DashboardMessage::MemoryUpdate(p)),
            None => Err(DecodeError::BadPayload),
        }
    }
}

// ---------------------------------------------------------------------------
// Laws of decoding
// ---------------------------------------------------------------------------

/// The wire discriminant of a message.
pub open spec fn disc_of(m: MessageModel) -> Seq<char> {
    match m {
        MessageModel::Init(_) => "init"@,
        MessageModel::Update(_) => "update"@,
        MessageModel::Log(_) => "log"@,
        MessageModel::AgentMetrics(_) => "agent_metrics"@,
        MessageModel::GameMetrics(_) => "game_metrics"@,
        MessageModel::TraceEvent(_) => "trace_event"@,
        MessageModel::MemoryUpdate(_) => "memory_update"@,
    }
}

pub open spec fn wf_blackboard(p: Json, b: BlackboardModel) -> bool {
    &&& str_field(p, "game_basic_state"@) == Some(b.game_basic_state)
    &&& str_field(p, "scratchpad"@) == Some(b.scratchpad)
    &&& json_field(p, "current_step"@) == Some(b.current_step)
    &&& arr_field(p, "plan"@) == Some(b.plan)
    &&& json_field(p, "action_result"@) == Some(b.action_result)
}

pub open spec fn wf_fsm(p: Json, f: FsmStateModel) -> bool {
    &&& str_field(p, "fsm_state"@) == Some(f.fsm_state)
    &&& i32_field(p, "step_index"@) == Some(f.step_index)
    &&& u64_field(p, "plan_length"@) == Some(f.plan_length)
    &&& str_field(p, "current_goal"@) == Some(f.current_goal)
    &&& (field_of(p, "blackboard"@) matches Some(bb) && wf_blackboard(bb, f.blackboard))
}

pub open spec fn wf_log(p: Json, l: LogModel) -> bool {
    &&& str_field(p, "level"@) == Some(l.level)
    &&& str_field(p, "message"@) == Some(l.message)
}

pub open spec fn wf_agent_metrics(p: Json, m: AgentMetricsModel) -> bool {
    &&& num_field(p, "tokens_per_min"@) == Some(m.tokens_per_min)
    &&& num_field(p, "llm_calls_per_min"@) == Some(m.llm_calls_per_min)
    &&& u64_field(p, "active_tasks"@) == Some(m.active_tasks)
    &&& u64_field(p, "total_actions"@) == Some(m.total_actions)
    &&& u64_field(p, "execution_volume"@) == Some(m.execution_volume)
    &&& num_field(p, "failure_rate"@) == Some(m.failure_rate)
    &&& num_field(p, "recovery_rate"@) == Some(m.recovery_rate)
    &&& u64_field(p, "timestamp"@) == Some(m.timestamp)
}

pub open spec fn wf_game_metrics(p: Json, m: GameMetricsModel) -> bool {
    &&& num_field(p, "fps"@) == Some(m.fps)
    &&& num_field(p, "frame_time_ms"@) == Some(m.frame_time_ms)
    &&& num_field(p, "tick_rate"@) == Some(m.tick_rate)
    &&& u64_field(p, "entity_count"@) == Some(m.entity_count)
}

pub open spec fn wf_trace(p: Json, m: TraceEventModel) -> bool {
    &&& u64_field(p, "timestamp"@) == Some(m.timestamp)
    &&& str_field(p, "event_type"@) == Some(m.event_type)
    &&& opt_str_field(p, "from_state"@) == Some(m.from_state)
    &&& opt_str_field(p, "to_state"@) == Some(m.to_state)
    &&& opt_str_field(p, "action_name"@) == Some(m.action_name)
    &&& json_field(p, "details"@) == Some(m.details)
}

pub open spec fn wf_query(p: Json, q: MemoryQueryModel) -> bool {
    &&& str_field(p, "query"@) == Some(q.query)
    &&& u64_field(p, "hits"@) == Some(q.hits)
    &&& u64_field(p, "timestamp"@) == Some(q.timestamp)
}

pub open spec fn wf_entry(p: Json, e: MemoryEntryModel) -> bool {
    &&& str_field(p, "key"@) == Some(e.key)
    &&& str_field(p, "value"@) == Some(e.value)
    &&& u64_field(p, "timestamp"@) == Some(e.timestamp)
    &&& bool_field(p, "is_new"@) == Some(e.is_new)
}

pub open spec fn wf_memory(p: Json, m: MemoryModel) -> bool {
    &&& u64_field(p, "total_entries"@) == Some(m.total_entries)
    &&& (arr_field(p, "recent_queries"@) matches Some(qs) && qs.len()
        == m.recent_queries.len() && (forall|i: int|
        0 <= i < qs.len() ==> wf_query(#[trigger] qs[i], m.recent_queries[i])))
    &&& (arr_field(p, "recent_additions"@) matches Some(es) && es.len()
        == m.recent_additions.len() && (forall|i: int|
        0 <= i < es.len() ==> wf_entry(#[trigger] es[i], m.recent_additions[i])))
}

pub open spec fn wf_payload(p: Json, m: MessageModel) -> bool {
    match m {
        MessageModel::Init(f) => wf_fsm(p, f),
        MessageModel::Update(f) => wf_fsm(p, f),
        MessageModel::Log(l) => wf_log(p, l),
        MessageModel::AgentMetrics(a) => wf_agent_metrics(p, a),
        MessageModel::GameMetrics(g) => wf_game_metrics(p, g),
        MessageModel::TraceEvent(t) => wf_trace(p, t),
        MessageModel::MemoryUpdate(mm) => wf_memory(p, mm),
    }
}

/// Whether the frame `j` is a well-formed carrier of the message `m`: its
/// `type` field is `m`'s discriminant and its `payload` field holds `m`'s
/// field values. Nothing is said of any other key of the frame or of the
/// payload, and objects are maps, so neither extra fields nor key order
/// matter.
pub open spec fn wf_frame(j: Json, m: MessageModel) -> bool {
    &&& str_field(j, "type"@) == Some(disc_of(m))
    &&& (field_of(j, "payload"@) matches Some(p) && wf_payload(p, m))
}

proof fn lemma_discriminants_distinct()
    ensures
        "init"@ != "update"@ && "init"@ != "log"@ && "init"@ != "agent_metrics"@ && "init"@
            != "game_metrics"@ && "init"@ != "trace_event"@ && "init"@ != "memory_update"@,
        "update"@ != "log"@ && "update"@ != "agent_metrics"@ && "update"@ != "game_metrics"@
            && "update"@ != "trace_event"@ && "update"@ != "memory_update"@,
        "log"@ != "agent_metrics"@ && "log"@ != "game_metrics"@ && "log"@ != "trace_event"@
            && "log"@ != "memory_update"@,
        "agent_metrics"@ != "game_metrics"@ && "agent_metrics"@ != "trace_event"@
            && "agent_metrics"@ != "memory_update"@,
        "game_metrics"@ != "trace_event"@ && "game_metrics"@ != "memory_update"@,
        "trace_event"@ != "memory_update"@,
{
    reveal_strlit("init");
    reveal_strlit("update");
    reveal_strlit("log");
    reveal_strlit("agent_metrics");
    reveal_strlit("game_metrics");
    reveal_strlit("trace_event");
    reveal_strlit("memory_update");
    assert("init"@.len() == 4);
    assert("update"@.len() == 6);
    assert("log"@.len() == 3);
    assert("agent_metrics"@.len() == 13);
    assert("game_metrics"@.len() == 12);
    assert("trace_event"@.len() == 11);
    assert("memory_update"@.len() == 13);
    assert("agent_metrics"@[0] == 'a' && "memory_update"@[0] == 'm');
}

/// Element-wise decoding succeeds on element-wise well-formed arrays.
proof fn lemma_seq_models_pointwise<A>(
    s: Seq<Json>,
    f: spec_fn(Json) -> Option<A>,
    ms: Seq<A>,
)
    requires
        s.len() == ms.len(),
        forall|i: int| 0 <= i < s.len() ==> f(#[trigger] s[i]) == Some(ms[i]),
    ensures
        seq_models(s, f) == Some(ms),
    decreases s.len(),
{
    if s.len() > 0 {
        lemma_seq_models_pointwise(s.drop_last(), f, ms.drop_last());
        assert(ms.drop_last().push(ms.last()) =~= ms);
    } else {
        assert(ms =~= Seq::<A>::empty());
    }
}

/// Element-wise decoding succeeds only element-wise.
proof fn lemma_seq_models_inv<A>(s: Seq<Json>, f: spec_fn(Json) -> Option<A>, ms: Seq<A>)
    requires
        seq_models(s, f) == Some(ms),
    ensures
        ms.len() == s.len(),
        forall|i: int| 0 <= i < s.len() ==> f(#[trigger] s[i]) == Some(ms[i]),
    decreases s.len(),
{
    if s.len() > 0 {
        let pre = seq_models(s.drop_last(), f).unwrap();
        lemma_seq_models_inv(s.drop_last(), f, pre);
        assert(forall|i: int|
            0 <= i < s.len() - 1 ==> #[trigger] s[i] == s.drop_last()[i]);
    }
}

proof fn lemma_memory_complete(p: Json, m: MemoryModel)
    requires
        wf_memory(p, m),
    ensures
        memory_of(p) == Some(m),
{
    let qs = arr_field(p, "recent_queries"@).unwrap();
    let es = arr_field(p, "recent_additions"@).unwrap();
    lemma_seq_models_pointwise(qs, |e: Json| query_of(e), m.recent_queries);
    lemma_seq_models_pointwise(es, |e: Json| entry_of(e), m.recent_additions);
}

proof fn lemma_memory_sound(p: Json, m: MemoryModel)
    requires
        memory_of(p) == Some(m),
    ensures
        wf_memory(p, m),
{
    let qs = arr_field(p, "recent_queries"@).unwrap();
    let es = arr_field(p, "recent_additions"@).unwrap();
    lemma_seq_models_inv(qs, |e: Json| query_of(e), m.recent_queries);
    lemma_seq_models_inv(es, |e: Json| entry_of(e), m.recent_additions);
}

/// Every well-formed frame decodes, and decodes to exactly the message it
/// carries: the payload's field values round-trip, numeric fields keep their
/// value, and the optional fields keep their presence or absence. Extra
/// fields and key order are immaterial.
pub proof fn lemma_decode_complete(j: Json, m: MessageModel)
    requires
        wf_frame(j, m),
    ensures
        decode_spec(Some(j)) == Ok::<MessageModel, DecodeError>(m),
{
    lemma_discriminants_distinct();
    let p = field_of(j, "payload"@).unwrap();
    match m {
        MessageModel::MemoryUpdate(mm) => {
            lemma_memory_complete(p, mm);
        },
        _ => {},
    }
}

/// Decoding accepts only well-formed frames: whenever a frame decodes to a
/// message, the frame carries exactly that message's discriminant and field
/// values.
pub proof fn lemma_decode_sound(j: Json, m: MessageModel)
    requires
        decode_spec(Some(j)) == Ok::<MessageModel, DecodeError>(m),
    ensures
        wf_frame(j, m),
{
    lemma_discriminants_distinct();
    let p = field_of(j, "payload"@).unwrap();
    match m {
        MessageModel::MemoryUpdate(mm) => {
            lemma_memory_sound(p, mm);
        },
        _ => {},
    }
}

/// A frame that is a well-formed carrier of no message at all is rejected
/// with a recoverable error, never anything worse.
pub proof fn lemma_decode_rejects(j: Json)
    requires
        forall|m: MessageModel| !wf_frame(j, m),
    ensures
        decode_spec(Some(j)) is Err,
{
    match decode_spec(Some(j)) {
        Ok(m) => {
            lemma_decode_sound(j, m);
            assert(!wf_frame(j, m));
        },
        Err(_) => {},
    }
}

// ---------------------------------------------------------------------------
// encode
// ---------------------------------------------------------------------------

/// The hexadecimal digit for one nibble.
pub open spec fn hex_digit(n: int) -> char {
    if n == 0 {
        '0'
    } else if n == 1 {
        '1'
    } else if n == 2 {
        '2'
    } else if n == 3 {
        '3'
    } else if n == 4 {
        '4'
    } else if n == 5 {
        '5'
    } else if n == 6 {
        '6'
    } else if n == 7 {
        '7'
    } else if n == 8 {
        '8'
    } else if n == 9 {
        '9'
    } else if n == 10 {
        'a'
    } else if n == 11 {
        'b'
    } else if n == 12 {
        'c'
    } else if n == 13 {
        'd'
    } else if n == 14 {
        'e'
    } else {
        'f'
    }
}

/// How one character appears inside a JSON string literal: quotes and
/// backslashes are escaped, control characters take their short escape or a
/// `\u00..` escape, and every other character stands as itself.
pub open spec fn escape_char(c: char) -> Seq<char> {
    if c == '"' {
        seq!['\\', '"']
    } else if c == '\\' {
        seq!['\\', '\\']
    } else if c == '\u{8}' {
        seq!['\\', 'b']
    } else if c == '\u{c}' {
        seq!['\\', 'f']
    } else if c == '\n' {
        seq!['\\', 'n']
    } else if c == '\r' {
        seq!['\\', 'r']
    } else if c == '\t' {
        seq!['\\', 't']
    } else if (c as u32) < 0x20 {
        seq!['\\', 'u', '0', '0', hex_digit(c as u32 as int / 16), hex_digit(c as u32 as int % 16)]
    } else {
        seq![c]
    }
}

/// A whole string's characters, escaped in order.
pub open spec fn escape_str(s: Seq<char>) -> Seq<char>
    decreases s.len(),
{
    if s.len() == 0 {
        Seq::empty()
    } else {
        escape_str(s.drop_last()) + escape_char(s.last())
    }
}

/// The exact text that encoding a command produces.
pub open spec fn encode_spec(text: Seq<char>) -> Seq<char> {
    "{\"type\":\"command\",\"payload\":{\"command\":\""@ + escape_str(text) + "\"}}"@
}

/// Relies on `String::push`: appends one character.
#[verifier::external_body]
pub(crate) fn push_char(s: &mut String, c: char)
    ensures
        final (s)@ == old(s)@ + seq![c],
{
    s.push(c);
}

fn hex_char(n: u8) -> (r: char)
    requires
        n < 16,
    ensures
        r == hex_digit(n as int),
{
    if n == 0 {
        '0'
    } else if n == 1 {
        '1'
    } else if n == 2 {
        '2'
    } else if n == 3 {
        '3'
    } else if n == 4 {
        '4'
    } else if n == 5 {
        '5'
    } else if n == 6 {
        '6'
    } else if n == 7 {
        '7'
    } else if n == 8 {
        '8'
    } else if n == 9 {
        '9'
    } else if n == 10 {
        'a'
    } else if n == 11 {
        'b'
    } else if n == 12 {
        'c'
    } else if n == 13 {
        'd'
    } else if n == 14 {
        'e'
    } else {
        'f'
    }
}

fn append_escaped(out: &mut String, c: char)
    ensures
        final (out)@ == old(out)@ + escape_char(c),
{
    if c == '"' {
        out.append("\\\"");
        proof {
            reveal_strlit("\\\"");
            assert("\\\""@ =~= escape_char(c));
        }
    } else if c == '\\' {
        out.append("\\\\");
        proof {
            reveal_strlit("\\\\");
            assert("\\\\"@ =~= escape_char(c));
        }
    } else if c == '\u{8}' {
        out.append("\\b");
        proof {
            reveal_strlit("\\b");
            assert("\\b"@ =~= escape_char(c));
        }
    } else if c == '\u{c}' {
        out.append("\\f");
        proof {
            reveal_strlit("\\f");
            assert("\\f"@ =~= escape_char(c));
        }
    } else if c == '\n' {
        out.append("\\n");
        proof {
            reveal_strlit("\\n");
            assert("\\n"@ =~= escape_char(c));
        }
    } else if c == '\r' {
        out.append("\\r");
        proof {
            reveal_strlit("\\r");
            assert("\\r"@ =~= escape_char(c));
        }
    } else if c == '\t' {
        out.append("\\t");
        proof {
            reveal_strlit("\\t");
            assert("\\t"@ =~= escape_char(c));
        }
    } else {
        let u = c as u32;
        if u < 0x20 {
            let ghost mid = out@;
            out.append("\\u00");
            let hi = hex_char((u / 16) as u8);
            push_char(out, hi);
            let lo = hex_char((u % 16) as u8);
            push_char(out, lo);
            proof {
                reveal_strlit("\\u00");
                assert(out@ =~= mid + escape_char(c));
            }
        } else {
            push_char(out, c);
            proof {
                assert(seq![c] =~= escape_char(c));
            }
        }
    }
}

fn escape_into(out: &mut String, text: &str)
    ensures
        final (out)@ == old(out)@ + escape_str(text@),
{
    broadcast use vstd::string::next_postcondition;

    let ghost base = out@;
    let mut it = text.chars();
    let ghost mut processed: Seq<char> = Seq::empty();
    proof {
        assert(processed + it.remaining() =~= text@);
        assert(out@ =~= base + escape_str(processed));
    }
    loop
        invariant
            processed.len() <= text@.len(),
            processed + it.remaining() == text@,
            out@ == base + escape_str(processed),
        ensures
            out@ == base + escape_str(text@),
        decreases text@.len() - processed.len(),
    {
        let ghost before = it.remaining();
        match it.next() {
            Some(c) => {
                append_escaped(out, c);
                proof {
                    let done = processed.push(c);
                    assert(done.drop_last() =~= processed);
                    assert(escape_str(done) == escape_str(processed) + escape_char(c));
                    processed = done;
                    assert(processed + it.remaining()
                        =~= text@);
                }
            },
            None => {
                proof {
                    assert(before.len() == 0);
                    assert(processed =~= text@);
                }
                break ;
            },
        }
    }
}

/// Encodes the one outbound command as a wire frame.
///
/// Encoding always succeeds, and the output text is exactly
/// [`encode_spec`] of the submitted command text.
pub fn encode(cmd: &ClientCommand) -> (r: String)
    ensures
        (cmd@ matches CommandModel::SendCommand(text) && r@ == encode_spec(text)),
{
    match cmd {
        ClientCommand::SendCommand(text) => {
            let mut out = String::new();
            out.append("{\"type\":\"command\",\"payload\":{\"command\":\"");
            escape_into(&mut out, text.as_str());
            out.append("\"}}");
            out
        },
    }
}

} // verus!
