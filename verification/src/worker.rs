//! The connection manager's decision core.
//!
//! The worker that owns the socket runs a connect → exchange → teardown
//! lifecycle forever. Everything it decides — which state comes next, which
//! event the consumer is told, which wire action to perform — is the pure
//! transition function [`step`], verified against [`step_spec`]. The loop
//! around it only performs the socket work and feeds the outcomes back in as
//! [`WorkerEvent`]s.

use vstd::prelude::*;

use crate::codec::{decode, decode_spec, encode, encode_spec, wf_frame};
use crate::json::parsed;
use crate::messages::{ActionModel, ClientAction, ClientCommand, CommandModel, MessageModel};

verus! {

/// Where the worker stands in its lifecycle: dialing the endpoint, or
/// exchanging frames on a live connection. Teardown is not a resting state:
/// a failed read or write moves straight back to `Dialing`, emitting the
/// `Disconnected` event on the way.
#[derive(Clone, Copy, Debug, PartialEq, Eq, Structural)]
pub enum WorkerState {
    Dialing,
    Active,
}

/// One outcome of outside work, fed back into the decision core.
#[derive(Debug)]
pub enum WorkerEvent {
    /// A dial attempt succeeded and the connection is usable.
    DialOk,
    /// A dial attempt failed.
    DialErr,
    /// One pending outbound command was drained from the command channel.
    Command(ClientCommand),
    /// One text frame was read from the connection.
    Frame(String),
    /// A read failed or the stream closed.
    ReadFailed,
    /// A write failed.
    WriteFailed,
}

/// Wire work the loop must perform next.
#[derive(Debug)]
pub enum IoAction {
    /// Send exactly this text on the connection.
    Write(String),
    /// Wait for the retry delay before dialing again.
    SleepRetry,
}

/// What one step decides: the next state, at most one event for the
/// consumer, and at most one wire action.
#[derive(Debug)]
pub struct StepResult {
    pub next: WorkerState,
    pub emit: Option<ClientAction>,
    pub io: Option<IoAction>,
}

pub ghost enum EventModel {
    DialOk,
    DialErr,
    Command(CommandModel),
    Frame(Seq<char>),
    ReadFailed,
    WriteFailed,
}

pub ghost enum IoModel {
    Write(Seq<char>),
    SleepRetry,
}

pub ghost struct StepModel {
    pub next: WorkerState,
    pub emit: Option<ActionModel>,
    pub io: Option<IoModel>,
}

impl View for WorkerEvent {
    type V = EventModel;

    open spec fn view(&self) -> EventModel {
        match self {
            WorkerEvent::DialOk => EventModel::DialOk,
            WorkerEvent::DialErr => EventModel::DialErr,
            WorkerEvent::Command(c) => EventModel::Command(c@),
            WorkerEvent::Frame(f) => EventModel::Frame(f@),
            WorkerEvent::ReadFailed => EventModel::ReadFailed,
            WorkerEvent::WriteFailed => EventModel::WriteFailed,
        }
    }
}

impl View for IoAction {
    type V = IoModel;

    open spec fn view(&self) -> IoModel {
        match self {
            IoAction::Write(t) => IoModel::Write(t@),
            IoAction::SleepRetry => IoModel::SleepRetry,
        }
    }
}

impl View for StepResult {
    type V = StepModel;

    open spec fn view(&self) -> StepModel {
        StepModel {
            next: self.next,
            emit: match self.emit {
                Some(a) => Some(a@),
                None => None,
            },
            io: match self.io {
                Some(io) => Some(io@),
                None => None,
            },
        }
    }
}

/// The transition function of the connection lifecycle.
///
/// While dialing: success moves to `Active` and announces `Connected`;
/// failure stays and asks for one retry delay; a command drained while no
/// connection is active is dropped. While active: a command becomes exactly
/// one write of its encoding; a frame becomes the decoded message, or the
/// decode failure surfaced as a non-fatal error; a failed read or write
/// announces `Disconnected` and moves back to dialing. Events that the loop
/// can only produce in the other state change nothing.
pub open spec fn step_spec(s: WorkerState, e: EventModel) -> StepModel {
    match (s, e) {
        (WorkerState::Dialing, EventModel::DialOk) => StepModel {
            next: WorkerState::Active,
            emit: Some(ActionModel::Connected),
            io: None,
        },
        (WorkerState::Dialing, EventModel::DialErr) => StepModel {
            next: WorkerState::Dialing,
            emit: None,
            io: Some(IoModel::SleepRetry),
        },
        (WorkerState::Dialing, _) => StepModel {
            next: WorkerState::Dialing,
            emit: None,
            io: None,
        },
        (WorkerState::Active, EventModel::Command(CommandModel::SendCommand(text))) => StepModel {
            next: WorkerState::Active,
            emit: None,
            io: Some(IoModel::Write(encode_spec(text))),
        },
        (WorkerState::Active, EventModel::Frame(f)) => match decode_spec(parsed(f)) {
            Ok(m) => StepModel {
                next: WorkerState::Active,
                emit: Some(ActionModel::Message(m)),
                io: None,
            },
            Err(err) => StepModel {
                next: WorkerState::Active,
                emit: Some(ActionModel::Error(err.describe_spec())),
                io: None,
            },
        },
        (WorkerState::Active, EventModel::ReadFailed) => StepModel {
            next: WorkerState::Dialing,
            emit: Some(ActionModel::Disconnected),
            io: None,
        },
        (WorkerState::Active, EventModel::WriteFailed) => StepModel {
            next: WorkerState::Dialing,
            emit: Some(ActionModel::Disconnected),
            io: None,
        },
        (WorkerState::Active, _) => StepModel {
            next: WorkerState::Active,
            emit: None,
            io: None,
        },
    }
}

/// One decision of the worker, exactly as [`step_spec`] states it.
pub fn step(state: WorkerState, event: &WorkerEvent) -> (r: StepResult)
    ensures
        r@ == step_spec(state, event@),
{
    match state {
        WorkerState::Dialing => match event {
            WorkerEvent::DialOk => StepResult {
                next: WorkerState::Active,
                emit: Some(ClientAction::Connected),
                io: None,
            },
            WorkerEvent::DialErr => StepResult {
                next: WorkerState::Dialing,
                emit: None,
                io: Some(IoAction::SleepRetry),
            },
            _ => StepResult { next: WorkerState::Dialing, emit: None, io: None },
        },
        WorkerState::Active => match event {
            WorkerEvent::Command(cmd) => {
                let text = encode(cmd);
                StepResult {
                    next: WorkerState::Active,
                    emit: None,
                    io: Some(IoAction::Write(text)),
                }
            },
            WorkerEvent::Frame(f) => match decode(f.as_str()) {
                Ok(m) => StepResult {
                    next: WorkerState::Active,
                    emit: Some(ClientAction::Message(m)),
                    io: None,
                },
                Err(e) => StepResult {
                    next: WorkerState::Active,
                    emit: Some(ClientAction::Error(e.describe().to_owned())),
                    io: None,
                },
            },
            WorkerEvent::ReadFailed => StepResult {
                next: WorkerState::Dialing,
                emit: Some(ClientAction::Disconnected),
                io: None,
            },
            WorkerEvent::WriteFailed => StepResult {
                next: WorkerState::Dialing,
                emit: Some(ClientAction::Disconnected),
                io: None,
            },
            _ => StepResult { next: WorkerState::Active, emit: None, io: None },
        },
    }
}

// ---------------------------------------------------------------------------
// Runs: folding the transition function over a sequence of events
// ---------------------------------------------------------------------------

/// What a whole run observes: the final state, every event emitted to the
/// consumer in order, and every wire action asked for in order.
pub ghost struct RunModel {
    pub state: WorkerState,
    pub emits: Seq<ActionModel>,
    pub ios: Seq<IoModel>,
}

pub open spec fn opt_seq<A>(o: Option<A>) -> Seq<A> {
    match o {
        Some(a) => seq![a],
        None => Seq::empty(),
    }
}

/// The fold of [`step_spec`] over a sequence of events.
pub open spec fn run_spec(s: WorkerState, events: Seq<EventModel>) -> RunModel
    decreases events.len(),
{
    if events.len() == 0 {
        RunModel { state: s, emits: Seq::empty(), ios: Seq::empty() }
    } else {
        let first = step_spec(s, events[0]);
        let rest = run_spec(first.next, events.drop_first());
        RunModel {
            state: rest.state,
            emits: opt_seq(first.emit) + rest.emits,
            ios: opt_seq(first.io) + rest.ios,
        }
    }
}

// ---------------------------------------------------------------------------
// Laws of the lifecycle
// ---------------------------------------------------------------------------

/// Submitting a command while the connection is active results in exactly
/// one write on the wire, carrying exactly the encoding of the submitted
/// text, before any further event is handled.
pub proof fn lemma_active_command_writes(t: Seq<char>)
    ensures
        step_spec(WorkerState::Active, EventModel::Command(CommandModel::SendCommand(t)))
            == (StepModel {
            next: WorkerState::Active,
            emit: None,
            io: Some(IoModel::Write(encode_spec(t))),
        }),
{
}

/// A command drained while no connection is active is dropped silently: the
/// step emits nothing and writes nothing, and the rest of the run proceeds
/// exactly as if the command had never been submitted — in particular the
/// command does not appear on the wire once a connection is later
/// established.
pub proof fn lemma_dialing_command_dropped(t: Seq<char>, rest: Seq<EventModel>)
    ensures
        run_spec(
            WorkerState::Dialing,
            seq![EventModel::Command(CommandModel::SendCommand(t))] + rest,
        ).state == run_spec(WorkerState::Dialing, rest).state,
        run_spec(
            WorkerState::Dialing,
            seq![EventModel::Command(CommandModel::SendCommand(t))] + rest,
        ).emits == run_spec(WorkerState::Dialing, rest).emits,
        run_spec(
            WorkerState::Dialing,
            seq![EventModel::Command(CommandModel::SendCommand(t))] + rest,
        ).ios == run_spec(WorkerState::Dialing, rest).ios,
{
    let evs = seq![EventModel::Command(CommandModel::SendCommand(t))] + rest;
    assert(evs.drop_first() =~= rest);
    assert(run_spec(WorkerState::Dialing, evs).emits =~= run_spec(WorkerState::Dialing,
        rest).emits);
    assert(run_spec(WorkerState::Dialing, evs).ios =~= run_spec(WorkerState::Dialing, rest).ios);
}

/// One successful epoch, observed in order: a dial succeeds, one
/// well-formed frame arrives, the stream closes. The consumer sees exactly
/// `Connected`, the decoded message, `Disconnected` — and nothing else.
pub proof fn lemma_epoch_event_order(f: Seq<char>, m: MessageModel)
    requires
        parsed(f) matches Some(j) && wf_frame(j, m),
    ensures
        run_spec(
            WorkerState::Dialing,
            seq![EventModel::DialOk, EventModel::Frame(f), EventModel::ReadFailed],
        ).emits == seq![
            ActionModel::Connected,
            ActionModel::Message(m),
            ActionModel::Disconnected,
        ],
        run_spec(
            WorkerState::Dialing,
            seq![EventModel::DialOk, EventModel::Frame(f), EventModel::ReadFailed],
        ).state == WorkerState::Dialing,
        run_spec(
            WorkerState::Dialing,
            seq![EventModel::DialOk, EventModel::Frame(f), EventModel::ReadFailed],
        ).ios == Seq::<IoModel>::empty(),
{
    crate::codec::lemma_decode_complete(parsed(f).unwrap(), m);
    let evs = seq![EventModel::DialOk, EventModel::Frame(f), EventModel::ReadFailed];
    let e1 = evs.drop_first();
    let e2 = e1.drop_first();
    let e3 = e2.drop_first();
    assert(e3.len() == 0);
    assert(run_spec(WorkerState::Dialing, e3).emits =~= Seq::<ActionModel>::empty());
    assert(e2[0] == EventModel::ReadFailed);
    assert(run_spec(WorkerState::Active, e2).emits =~= seq![ActionModel::Disconnected]);
    assert(run_spec(WorkerState::Active, e2).ios =~= Seq::<IoModel>::empty());
    assert(e1[0] == EventModel::Frame(f));
    assert(run_spec(WorkerState::Active, e1).emits =~= seq![
        ActionModel::Message(m),
        ActionModel::Disconnected,
    ]);
    assert(run_spec(WorkerState::Active, e1).ios =~= Seq::<IoModel>::empty());
    assert(evs[0] == EventModel::DialOk);
    assert(run_spec(WorkerState::Dialing, evs).emits =~= seq![
        ActionModel::Connected,
        ActionModel::Message(m),
        ActionModel::Disconnected,
    ]);
    assert(run_spec(WorkerState::Dialing, evs).ios =~= Seq::<IoModel>::empty());
}

/// The worker retries indefinitely with the configured delay: after any
/// number of failed dial attempts — each answered by exactly one retry
/// delay and nothing for the consumer — a successful dial still reaches the
/// active state, with the consumer observing exactly one `Connected`.
pub proof fn lemma_retry_until_connected(n: nat)
    ensures
        run_spec(
            WorkerState::Dialing,
            Seq::new(n, |i: int| EventModel::DialErr).push(EventModel::DialOk),
        ).state == WorkerState::Active,
        run_spec(
            WorkerState::Dialing,
            Seq::new(n, |i: int| EventModel::DialErr).push(EventModel::DialOk),
        ).emits == seq![ActionModel::Connected],
        run_spec(
            WorkerState::Dialing,
            Seq::new(n, |i: int| EventModel::DialErr).push(EventModel::DialOk),
        ).ios == Seq::new(n, |i: int| IoModel::SleepRetry),
    decreases n,
{
    let evs = Seq::new(n, |i: int| EventModel::DialErr).push(EventModel::DialOk);
    if n == 0 {
        assert(evs[0] == EventModel::DialOk);
        let e1 = evs.drop_first();
        assert(e1.len() == 0);
        assert(run_spec(WorkerState::Active, e1).emits =~= Seq::<ActionModel>::empty());
        assert(run_spec(WorkerState::Dialing, evs).emits =~= seq![ActionModel::Connected]);
        assert(run_spec(WorkerState::Dialing, evs).ios =~= Seq::new(
            0,
            |i: int| IoModel::SleepRetry,
        ));
    } else {
        lemma_retry_until_connected((n - 1) as nat);
        let tail = Seq::new((n - 1) as nat, |i: int| EventModel::DialErr).push(EventModel::DialOk);
        assert(evs[0] == EventModel::DialErr);
        assert(evs.drop_first() =~= tail);
        assert(run_spec(WorkerState::Dialing, evs).emits =~= seq![ActionModel::Connected]);
        assert(run_spec(WorkerState::Dialing, evs).ios =~= seq![IoModel::SleepRetry] + Seq::new(
            (n - 1) as nat,
            |i: int| IoModel::SleepRetry,
        ));
        assert(run_spec(WorkerState::Dialing, evs).ios =~= Seq::new(
            n,
            |i: int| IoModel::SleepRetry,
        ));
    }
}

/// A `Message` event is only ever emitted from the active state, which the
/// step then stays in: the consumer can attribute every message to the
/// epoch whose `Connected` it follows and whose `Disconnected` it precedes.
pub proof fn lemma_message_only_while_active(s: WorkerState, e: EventModel)
    ensures
        (step_spec(s, e).emit matches Some(ActionModel::Message(_)) ==> s == WorkerState::Active
            && step_spec(s, e).next == WorkerState::Active),
{
}

/// Whether every `Message` in a stream of emitted events falls inside an
/// epoch: replaying the lifecycle events from `active`, each message is
/// observed after a `Connected` and before that epoch's `Disconnected`.
pub open spec fn messages_within_epochs(active: bool, emits: Seq<ActionModel>) -> bool
    decreases emits.len(),
{
    if emits.len() == 0 {
        true
    } else {
        match emits[0] {
            ActionModel::Connected => messages_within_epochs(true, emits.drop_first()),
            ActionModel::Disconnected => messages_within_epochs(false, emits.drop_first()),
            ActionModel::Message(_) => active && messages_within_epochs(
                active,
                emits.drop_first(),
            ),
            ActionModel::Error(_) => messages_within_epochs(active, emits.drop_first()),
        }
    }
}

/// The event channel's ordering invariant: in every run, the emitted events
/// interleave correctly with the lifecycle transitions — the consumer never
/// observes a `Message` attributed to a connection epoch after that epoch's
/// `Disconnected`, nor before its `Connected`.
pub proof fn lemma_epoch_attribution(s: WorkerState, events: Seq<EventModel>)
    ensures
        messages_within_epochs(s == WorkerState::Active, run_spec(s, events).emits),
    decreases events.len(),
{
    if events.len() > 0 {
        let first = step_spec(s, events[0]);
        let rest = run_spec(first.next, events.drop_first());
        lemma_epoch_attribution(first.next, events.drop_first());
        match first.emit {
            Some(a) => {
                assert((seq![a] + rest.emits)[0] == a);
                assert((seq![a] + rest.emits).drop_first() =~= rest.emits);
            },
            None => {
                assert(opt_seq(first.emit) + rest.emits =~= rest.emits);
            },
        }
    }
}

} // verus!
