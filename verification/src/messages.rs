//! The typed messages that travel over the wire, and their mathematical
//! models.
//!
//! Every inbound frame decodes to a [`DashboardMessage`]; the one outbound
//! command is a [`ClientCommand`]. Each payload type has a ghost model (its
//! view), stated over character sequences and [`Json`] trees, and the codec's
//! contracts speak only of those models.

use vstd::prelude::*;

use crate::json::{json_model, num_model, Json, NumRep};

verus! {

/// One successfully decoded application payload, tagged by the wire-level
/// discriminant of its frame.
#[derive(Debug, Clone)]
pub enum DashboardMessage {
    Init(FsmStatePayload),
    Update(FsmStatePayload),
    Log(LogPayload),
    AgentMetrics(AgentMetricsPayload),
    GameMetrics(GameMetricsPayload),
    TraceEvent(TraceEventPayload),
    MemoryUpdate(MemoryPayload),
}

/// The agent's finite-state-machine snapshot, carried by `init` and `update`
/// frames.
#[derive(Debug, Clone)]
pub struct FsmStatePayload {
    pub fsm_state: String,
    pub step_index: i32,
    pub plan_length: u64,
    pub current_goal: String,
    pub blackboard: BlackboardData,
}

/// The agent's blackboard. The plan steps, the current step and the last
/// action result have no fixed schema, so they stay generic JSON values at
/// this boundary; only the consumer interprets their shape.
#[derive(Debug, Clone)]
pub struct BlackboardData {
    pub game_basic_state: String,
    pub scratchpad: String,
    pub current_step: serde_json::Value,
    pub plan: Vec<serde_json::Value>,
    pub action_result: serde_json::Value,
}

/// A log line forwarded by the agent.
#[derive(Debug, Clone)]
pub struct LogPayload {
    pub level: String,
    pub message: String,
}

/// Agent performance counters. The rate fields are arbitrary JSON numbers on
/// the wire and are kept exactly as received.
#[derive(Debug, Clone)]
pub struct AgentMetricsPayload {
    pub tokens_per_min: serde_json::Number,
    pub llm_calls_per_min: serde_json::Number,
    pub active_tasks: u64,
    pub total_actions: u64,
    pub execution_volume: u64,
    pub failure_rate: serde_json::Number,
    pub recovery_rate: serde_json::Number,
    pub timestamp: u64,
}

/// Game performance counters.
#[derive(Debug, Clone)]
pub struct GameMetricsPayload {
    pub fps: serde_json::Number,
    pub frame_time_ms: serde_json::Number,
    pub tick_rate: serde_json::Number,
    pub entity_count: u64,
}

/// One trace event: an FSM transition, an action boundary, or a log marker.
/// The optional fields decode to an explicit absent marker, never to an
/// empty string.
#[derive(Debug, Clone)]
pub struct TraceEventPayload {
    pub timestamp: u64,
    pub event_type: String,
    pub from_state: Option<String>,
    pub to_state: Option<String>,
    pub action_name: Option<String>,
    pub details: serde_json::Value,
}

/// A snapshot of the agent's memory system.
#[derive(Debug, Clone)]
pub struct MemoryPayload {
    pub total_entries: u64,
    pub recent_queries: Vec<MemoryQuery>,
    pub recent_additions: Vec<MemoryEntry>,
}

/// One recent memory lookup.
#[derive(Debug, Clone)]
pub struct MemoryQuery {
    pub query: String,
    pub hits: u64,
    pub timestamp: u64,
}

/// One recent memory addition.
#[derive(Debug, Clone)]
pub struct MemoryEntry {
    pub key: String,
    pub value: String,
    pub timestamp: u64,
    pub is_new: bool,
}

/// One outbound command submitted by the consumer.
#[derive(Debug, Clone)]
pub enum ClientCommand {
    SendCommand(String),
}

/// One event delivered to the consumer: a lifecycle transition, a decoded
/// message, or a non-fatal error worth surfacing.
#[derive(Debug, Clone)]
pub enum ClientAction {
    Message(DashboardMessage),
    Connected,
    Disconnected,
    Error(String),
}

// ---------------------------------------------------------------------------
// Models
// ---------------------------------------------------------------------------

pub ghost enum MessageModel {
    Init(FsmStateModel),
    Update(FsmStateModel),
    Log(LogModel),
    AgentMetrics(AgentMetricsModel),
    GameMetrics(GameMetricsModel),
    TraceEvent(TraceEventModel),
    MemoryUpdate(MemoryModel),
}

pub ghost struct FsmStateModel {
    pub fsm_state: Seq<char>,
    pub step_index: i32,
    pub plan_length: u64,
    pub current_goal: Seq<char>,
    pub blackboard: BlackboardModel,
}

pub ghost struct BlackboardModel {
    pub game_basic_state: Seq<char>,
    pub scratchpad: Seq<char>,
    pub current_step: Json,
    pub plan: Seq<Json>,
    pub action_result: Json,
}

pub ghost struct LogModel {
    pub level: Seq<char>,
    pub message: Seq<char>,
}

pub ghost struct AgentMetricsModel {
    pub tokens_per_min: NumRep,
    pub llm_calls_per_min: NumRep,
    pub active_tasks: u64,
    pub total_actions: u64,
    pub execution_volume: u64,
    pub failure_rate: NumRep,
    pub recovery_rate: NumRep,
    pub timestamp: u64,
}

pub ghost struct GameMetricsModel {
    pub fps: NumRep,
    pub frame_time_ms: NumRep,
    pub tick_rate: NumRep,
    pub entity_count: u64,
}

pub ghost struct TraceEventModel {
    pub timestamp: u64,
    pub event_type: Seq<char>,
    pub from_state: Option<Seq<char>>,
    pub to_state: Option<Seq<char>>,
    pub action_name: Option<Seq<char>>,
    pub details: Json,
}

pub ghost struct MemoryModel {
    pub total_entries: u64,
    pub recent_queries: Seq<MemoryQueryModel>,
    pub recent_additions: Seq<MemoryEntryModel>,
}

pub ghost struct MemoryQueryModel {
    pub query: Seq<char>,
    pub hits: u64,
    pub timestamp: u64,
}

pub ghost struct MemoryEntryModel {
    pub key: Seq<char>,
    pub value: Seq<char>,
    pub timestamp: u64,
    pub is_new: bool,
}

pub ghost enum CommandModel {
    SendCommand(Seq<char>),
}

pub ghost enum ActionModel {
    Message(MessageModel),
    Connected,
    Disconnected,
    Error(Seq<char>),
}

pub open spec fn opt_str_view(o: Option<String>) -> Option<Seq<char>> {
    match o {
        Some(s) => Some(s@),
        None => None,
    }
}

impl View for FsmStatePayload {
    type V = FsmStateModel;

    open spec fn view(&self) -> FsmStateModel {
        FsmStateModel {
            fsm_state: self.fsm_state@,
            step_index: self.step_index,
            plan_length: self.plan_length,
            current_goal: self.current_goal@,
            blackboard: self.blackboard@,
        }
    }
}

impl View for BlackboardData {
    type V = BlackboardModel;

    open spec fn view(&self) -> BlackboardModel {
        BlackboardModel {
            game_basic_state: self.game_basic_state@,
            scratchpad: self.scratchpad@,
            current_step: json_model(self.current_step),
            plan: self.plan@.map_values(|v: serde_json::Value| json_model(v)),
            action_result: json_model(self.action_result),
        }
    }
}

impl View for LogPayload {
    type V = LogModel;

    open spec fn view(&self) -> LogModel {
        LogModel { level: self.level@, message: self.message@ }
    }
}

impl View for AgentMetricsPayload {
    type V = AgentMetricsModel;

    open spec fn view(&self) -> AgentMetricsModel {
        AgentMetricsModel {
            tokens_per_min: num_model(self.tokens_per_min),
            llm_calls_per_min: num_model(self.llm_calls_per_min),
            active_tasks: self.active_tasks,
            total_actions: self.total_actions,
            execution_volume: self.execution_volume,
            failure_rate: num_model(self.failure_rate),
            recovery_rate: num_model(self.recovery_rate),
            timestamp: self.timestamp,
        }
    }
}

impl View for GameMetricsPayload {
    type V = GameMetricsModel;

    open spec fn view(&self) -> GameMetricsModel {
        GameMetricsModel {
            fps: num_model(self.fps),
            frame_time_ms: num_model(self.frame_time_ms),
            tick_rate: num_model(self.tick_rate),
            entity_count: self.entity_count,
        }
    }
}

impl View for TraceEventPayload {
    type V = TraceEventModel;

    open spec fn view(&self) -> TraceEventModel {
        TraceEventModel {
            timestamp: self.timestamp,
            event_type: self.event_type@,
            from_state: opt_str_view(self.from_state),
            to_state: opt_str_view(self.to_state),
            action_name: opt_str_view(self.action_name),
            details: json_model(self.details),
        }
    }
}

impl View for MemoryQuery {
    type V = MemoryQueryModel;

    open spec fn view(&self) -> MemoryQueryModel {
        MemoryQueryModel { query: self.query@, hits: self.hits, timestamp: self.timestamp }
    }
}

impl View for MemoryEntry {
    type V = MemoryEntryModel;

    open spec fn view(&self) -> MemoryEntryModel {
        MemoryEntryModel {
            key: self.key@,
            value: self.value@,
            timestamp: self.timestamp,
            is_new: self.is_new,
        }
    }
}

impl View for MemoryPayload {
    type V = MemoryModel;

    open spec fn view(&self) -> MemoryModel {
        MemoryModel {
            total_entries: self.total_entries,
            recent_queries: self.recent_queries@.map_values(|q: MemoryQuery| q@),
            recent_additions: self.recent_additions@.map_values(|e: MemoryEntry| e@),
        }
    }
}

impl View for DashboardMessage {
    type V = MessageModel;

    open spec fn view(&self) -> MessageModel {
        match self {
            DashboardMessage::Init(p) => MessageModel::Init(p@),
            DashboardMessage::Update(p) => MessageModel::Update(p@),
            DashboardMessage::Log(p) => MessageModel::Log(p@),
            DashboardMessage::AgentMetrics(p) => MessageModel::AgentMetrics(p@),
            DashboardMessage::GameMetrics(p) => MessageModel::GameMetrics(p@),
            DashboardMessage::TraceEvent(p) => MessageModel::TraceEvent(p@),
            DashboardMessage::MemoryUpdate(p) => MessageModel::MemoryUpdate(p@),
        }
    }
}

impl View for ClientCommand {
    type V = CommandModel;

    open spec fn view(&self) -> CommandModel {
        match self {
            ClientCommand::SendCommand(text) => CommandModel::SendCommand(text@),
        }
    }
}

impl View for ClientAction {
    type V = ActionModel;

    open spec fn view(&self) -> ActionModel {
        match self {
            ClientAction::Message(m) => ActionModel::Message(m@),
            ClientAction::Connected => ActionModel::Connected,
            ClientAction::Disconnected => ActionModel::Disconnected,
            ClientAction::Error(e) => ActionModel::Error(e@),
        }
    }
}

} // verus!
