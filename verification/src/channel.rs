//! The channel bridge between the background worker and the consumer.
//!
//! Two unbounded, ordered channels decouple the worker's thread of control
//! from the consumer's: the worker produces connection events that the
//! consumer drains without ever blocking, and the consumer produces outbound
//! commands that the worker drains opportunistically. What travels on a
//! channel depends on the other thread, so the trusted items here promise
//! nothing about contents; every claim about what the values mean is made by
//! the codec and the worker's transition function, which are verified.

use vstd::prelude::*;

use crate::messages::{ClientAction, ClientCommand};

verus! {

#[verifier::external_type_specification]
#[verifier::external_body]
#[verifier::reject_recursive_types(T)]
pub struct ExSender<T>(std::sync::mpsc::Sender<T>);

#[verifier::external_type_specification]
#[verifier::external_body]
#[verifier::reject_recursive_types(T)]
pub struct ExReceiver<T>(std::sync::mpsc::Receiver<T>);

/// Relies on `std::sync::mpsc::Sender::send`: enqueues the value; the send
/// fails only when the receiving end is gone, and the caller treats both
/// outcomes alike.
#[verifier::external_body]
fn send_command_raw(tx: &std::sync::mpsc::Sender<ClientCommand>, cmd: ClientCommand) {
    let _ = tx.send(cmd);
}

/// Relies on `std::sync::mpsc::Receiver::try_recv`: takes the next queued
/// event without blocking, in the order the worker sent them; what comes
/// back depends on the worker's concurrent sends, so nothing more can be
/// promised of one call.
#[verifier::external_body]
fn try_recv_action(rx: &std::sync::mpsc::Receiver<ClientAction>) -> (r: Option<ClientAction>) {
    rx.try_recv().ok()
}

/// The consumer's handle on a running connection: it owns the producer end
/// of the command channel and nothing else.
pub struct WsClientHandle {
    command_tx: std::sync::mpsc::Sender<ClientCommand>,
}

impl WsClientHandle {
    /// Wraps the producer end of a command channel whose consumer end the
    /// worker loop drains.
    pub fn new(command_tx: std::sync::mpsc::Sender<ClientCommand>) -> (r: WsClientHandle) {
        WsClientHandle { command_tx }
    }

    /// Enqueues one outbound command. Never blocks and never fails
    /// observably: if the worker is gone, the command is silently dropped.
    pub fn send_command(&self, cmd: String) {
        send_command_raw(&self.command_tx, ClientCommand::SendCommand(cmd));
    }
}

/// Drains the events currently queued, never waiting on the worker: the
/// consumer gets zero or more events immediately, in the order the worker
/// observed them. One call takes at most `max` events, so that a single
/// poll is bounded; the consumer polls on a cadence, and whatever is left
/// is taken by the next poll.
pub fn poll_events(rx: &std::sync::mpsc::Receiver<ClientAction>, max: usize) -> (events: Vec<
    ClientAction,
>)
    ensures
        events@.len() <= max,
{
    let mut out: Vec<ClientAction> = Vec::new();
    let mut i: usize = 0;
    while i < max
        invariant
            out@.len() <= i <= max,
        decreases max - i,
    {
        match try_recv_action(rx) {
            Some(a) => {
                out.push(a);
            },
            None => {
                return out;
            },
        }
        i = i + 1;
    }
    out
}

} // verus!
