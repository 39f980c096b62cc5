//! The consumer's own state, driven purely by the stream of connection
//! events.
//!
//! The consumer is a reactive subscriber: it never touches the socket, it
//! only drains the event channel and folds each event into a
//! [`DashboardState`]. Everything the display layer shows — the connection
//! indicator, the latest snapshot of each panel, the bounded trace history —
//! is a function of this state.

use vstd::prelude::*;

use crate::codec::push_char;
use crate::messages::{
    ActionModel, AgentMetricsModel, AgentMetricsPayload, ClientAction, DashboardMessage,
    FsmStateModel, FsmStatePayload, GameMetricsModel, GameMetricsPayload, MemoryModel,
    MemoryPayload, MessageModel, TraceEventModel, TraceEventPayload,
};

verus! {

/// How many trace events the consumer keeps: the most recent ones, oldest
/// dropped first.
pub const TRACE_CAP: usize = 50;

/// Everything the consumer remembers, as a function of the events it has
/// seen.
pub struct DashboardState {
    /// Whether the last lifecycle event was `Connected`.
    pub connected: bool,
    /// Which tab of the display is selected.
    pub current_tab: usize,
    /// The latest FSM snapshot, from the last `init` or `update` message.
    pub latest_fsm: Option<FsmStatePayload>,
    /// The latest agent counters.
    pub agent_metrics: Option<AgentMetricsPayload>,
    /// The most recent trace events, at most [`TRACE_CAP`], oldest first.
    pub trace_events: Vec<TraceEventPayload>,
    /// The latest memory snapshot.
    pub memory_data: Option<MemoryPayload>,
    /// The latest game counters.
    pub game_metrics: Option<GameMetricsPayload>,
}

pub ghost struct DashboardModel {
    pub connected: bool,
    pub current_tab: usize,
    pub latest_fsm: Option<FsmStateModel>,
    pub agent_metrics: Option<AgentMetricsModel>,
    pub trace_events: Seq<TraceEventModel>,
    pub memory_data: Option<MemoryModel>,
    pub game_metrics: Option<GameMetricsModel>,
}

impl View for DashboardState {
    type V = DashboardModel;

    open spec fn view(&self) -> DashboardModel {
        DashboardModel {
            connected: self.connected,
            current_tab: self.current_tab,
            latest_fsm: match self.latest_fsm {
                Some(f) => Some(f@),
                None => None,
            },
            agent_metrics: match self.agent_metrics {
                Some(a) => Some(a@),
                None => None,
            },
            trace_events: self.trace_events@.map_values(|t: TraceEventPayload| t@),
            memory_data: match self.memory_data {
                Some(m) => Some(m@),
                None => None,
            },
            game_metrics: match self.game_metrics {
                Some(g) => Some(g@),
                None => None,
            },
        }
    }
}

/// The state a fresh consumer starts in: disconnected, first tab, nothing
/// remembered.
pub open spec fn initial_model() -> DashboardModel {
    DashboardModel {
        connected: false,
        current_tab: 0,
        latest_fsm: None,
        agent_metrics: None,
        trace_events: Seq::empty(),
        memory_data: None,
        game_metrics: None,
    }
}

/// Appends one trace event, dropping the oldest once the history is full.
pub open spec fn push_capped(s: Seq<TraceEventModel>, t: TraceEventModel) -> Seq<TraceEventModel> {
    if s.push(t).len() > TRACE_CAP as int {
        s.push(t).drop_first()
    } else {
        s.push(t)
    }
}

/// How one decoded message changes the consumer's state. A log message
/// changes nothing here: log lines are output, not state.
pub open spec fn apply_message_spec(d: DashboardModel, m: MessageModel) -> DashboardModel {
    match m {
        MessageModel::Init(f) => DashboardModel { latest_fsm: Some(f), ..d },
        MessageModel::Update(f) => DashboardModel { latest_fsm: Some(f), ..d },
        MessageModel::Log(_) => d,
        MessageModel::AgentMetrics(a) => DashboardModel { agent_metrics: Some(a), ..d },
        MessageModel::GameMetrics(g) => DashboardModel { game_metrics: Some(g), ..d },
        MessageModel::TraceEvent(t) => DashboardModel {
            trace_events: push_capped(d.trace_events, t),
            ..d
        },
        MessageModel::MemoryUpdate(mm) => DashboardModel { memory_data: Some(mm), ..d },
    }
}

/// How one connection event changes the consumer's state: the lifecycle
/// events steer the connected flag, messages update their panel's snapshot,
/// and a surfaced error changes nothing — absence of events is never an
/// error state.
pub open spec fn apply_spec(d: DashboardModel, a: ActionModel) -> DashboardModel {
    match a {
        ActionModel::Connected => DashboardModel { connected: true, ..d },
        ActionModel::Disconnected => DashboardModel { connected: false, ..d },
        ActionModel::Error(_) => d,
        ActionModel::Message(m) => apply_message_spec(d, m),
    }
}

impl DashboardState {
    /// The one invariant of the consumer's state: the trace history never
    /// holds more than [`TRACE_CAP`] events.
    pub open spec fn wf(self) -> bool {
        self.trace_events@.len() <= TRACE_CAP as int
    }

    /// A fresh consumer state.
    pub fn new() -> (r: DashboardState)
        ensures
            r@ == initial_model(),
            r.wf(),
    {
        let r = DashboardState {
            connected: false,
            current_tab: 0,
            latest_fsm: None,
            agent_metrics: None,
            trace_events: Vec::new(),
            memory_data: None,
            game_metrics: None,
        };
        proof {
            assert(r.trace_events@.map_values(|t: TraceEventPayload| t@) =~= Seq::<
                TraceEventModel,
            >::empty());
        }
        r
    }

    /// Selects a tab. Nothing else changes.
    pub fn set_tab(&mut self, tab: usize)
        ensures
            final (self)@ == (DashboardModel { current_tab: tab, ..old(self)@ }),
            old(self).wf() ==> final (self).wf(),
    {
        self.current_tab = tab;
    }

    /// Folds one connection event into the state, exactly as [`apply_spec`]
    /// says, and preserves the invariant.
    pub fn apply(&mut self, action: ClientAction)
        requires
            old(self).wf(),
        ensures
            final (self)@ == apply_spec(old(self)@, action@),
            final (self).wf(),
    {
        match action {
            ClientAction::Connected => {
                self.connected = true;
            },
            ClientAction::Disconnected => {
                self.connected = false;
            },
            ClientAction::Error(_) => {},
            ClientAction::Message(m) => {
                self.apply_message(m);
            },
        }
    }

    fn apply_message(&mut self, m: DashboardMessage)
        requires
            old(self).wf(),
        ensures
            final (self)@ == apply_message_spec(old(self)@, m@),
            final (self).wf(),
    {
        match m {
            DashboardMessage::Init(f) => {
                self.latest_fsm = Some(f);
            },
            DashboardMessage::Update(f) => {
                self.latest_fsm = Some(f);
            },
            DashboardMessage::Log(_) => {},
            DashboardMessage::AgentMetrics(a) => {
                self.agent_metrics = Some(a);
            },
            DashboardMessage::GameMetrics(g) => {
                self.game_metrics = Some(g);
            },
            DashboardMessage::TraceEvent(t) => {
                self.trace_events.push(t);
                let ghost pushed = self.trace_events@.map_values(|e: TraceEventPayload| e@);
                if self.trace_events.len() > TRACE_CAP {
                    self.trace_events.remove(0);
                    proof {
                        assert(self.trace_events@.map_values(|e: TraceEventPayload| e@)
                            =~= pushed.drop_first());
                    }
                }
                proof {
                    assert(old(self).trace_events@.map_values(|e: TraceEventPayload| e@).push(t@)
                        =~= pushed);
                }
            },
            DashboardMessage::MemoryUpdate(mm) => {
                self.memory_data = Some(mm);
            },
        }
    }
}

// ---------------------------------------------------------------------------
// Timestamp rendering
// ---------------------------------------------------------------------------

/// The decimal digit for one value below ten.
pub open spec fn digit_of(n: int) -> char {
    if n == 0 {
        '0'
    } else if n == 1 {
        '1'
    } else if n == 2 {
        '2'
    } else if n == 3 {
        '3'
    } else if n == 4 {
        '4'
    } else if n == 5 {
        '5'
    } else if n == 6 {
        '6'
    } else if n == 7 {
        '7'
    } else if n == 8 {
        '8'
    } else {
        '9'
    }
}

/// The decimal digits of a number, most significant first, no leading zero.
pub open spec fn dec_digits(n: nat) -> Seq<char>
    decreases n,
{
    if n < 10 {
        seq![digit_of(n as int)]
    } else {
        dec_digits(n / 10).push(digit_of((n % 10) as int))
    }
}

/// The decimal digits, padded on the left to at least two.
pub open spec fn two_pad(n: nat) -> Seq<char> {
    if n < 10 {
        seq!['0', digit_of(n as int)]
    } else {
        dec_digits(n)
    }
}

/// The text a millisecond timestamp is shown as: whole minutes and the
/// seconds within the minute, each at least two digits, separated by a
/// colon.
pub open spec fn format_timestamp_spec(ts: u64) -> Seq<char> {
    two_pad((ts as nat / 1000) / 60) + seq![':'] + two_pad((ts as nat / 1000) % 60)
}

fn digit_char(n: u64) -> (c: char)
    requires
        n < 10,
    ensures
        c == digit_of(n as int),
{
    if n == 0 {
        '0'
    } else if n == 1 {
        '1'
    } else if n == 2 {
        '2'
    } else if n == 3 {
        '3'
    } else if n == 4 {
        '4'
    } else if n == 5 {
        '5'
    } else if n == 6 {
        '6'
    } else if n == 7 {
        '7'
    } else if n == 8 {
        '8'
    } else {
        '9'
    }
}

fn append_u64(out: &mut String, n: u64)
    ensures
        final (out)@ == old(out)@ + dec_digits(n as nat),
    decreases n,
{
    if n < 10 {
        push_char(out, digit_char(n));
    } else {
        append_u64(out, n / 10);
        push_char(out, digit_char(n % 10));
    }
}

fn append_two_pad(out: &mut String, n: u64)
    ensures
        final (out)@ == old(out)@ + two_pad(n as nat),
{
    if n < 10 {
        push_char(out, '0');
        push_char(out, digit_char(n));
        proof {
            assert(old(out)@ + seq!['0'] + seq![digit_of(n as int)] =~= old(out)@ + two_pad(
                n as nat,
            ));
        }
    } else {
        append_u64(out, n);
    }
}

/// Renders a millisecond timestamp as minutes and seconds for display,
/// exactly as [`format_timestamp_spec`] says.
pub fn format_timestamp(ts: u64) -> (r: String)
    ensures
        r@ == format_timestamp_spec(ts),
{
    let total = ts / 1000;
    let mins = total / 60;
    let secs = total % 60;
    let mut out = String::new();
    append_two_pad(&mut out, mins);
    push_char(&mut out, ':');
    append_two_pad(&mut out, secs);
    proof {
        assert(out@ =~= format_timestamp_spec(ts));
    }
    out
}

} // verus!
