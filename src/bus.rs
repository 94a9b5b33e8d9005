//! The command and result buses: bounded channels whose senders never block.
//! A message that does not fit is handed back and dropped by the caller.
use vstd::prelude::*;
use crossbeam::channel::{Receiver, Sender, TrySendError};
use crate::messages::{ApiCommand, ThreadMessage, UIData};

verus! {

#[verifier::external_type_specification]
#[verifier::external_body]
#[verifier::reject_recursive_types(T)]
pub struct ExSender<T>(Sender<T>);

#[verifier::external_type_specification]
#[verifier::external_body]
#[verifier::reject_recursive_types(T)]
pub struct ExReceiver<T>(Receiver<T>);

/// The capacity of both buses.
pub const BUS_CAPACITY: usize = 5;

/// Relies on `crossbeam::channel::Sender::try_send`: it never blocks, and when
/// the channel is full or disconnected the error hands the message back.
#[verifier::external_body]
fn offer(s: &Sender<ThreadMessage>, msg: ThreadMessage) -> (r: Result<(), ThreadMessage>)
    ensures
        r matches Err(m) ==> m == msg,
{
    match s.try_send(msg) {
        Ok(()) => Ok(()),
        Err(TrySendError::Full(m)) => Err(m),
        Err(TrySendError::Disconnected(m)) => Err(m),
    }
}

/// Relies on `crossbeam::channel::Receiver::try_recv`: it never blocks and
/// gives a message only where one is queued.
#[verifier::external_body]
fn take_queued(r: &Receiver<ThreadMessage>) -> (m: Option<ThreadMessage>) {
    r.try_recv().ok()
}

/// The consumer's side of the buses: it enqueues commands and polls results,
/// and never waits.
pub struct ConsumerPort {
    commands: Sender<ThreadMessage>,
    results: Receiver<ThreadMessage>,
}

impl ConsumerPort {
    pub fn new(commands: Sender<ThreadMessage>, results: Receiver<ThreadMessage>) -> (r: Self) {
        ConsumerPort { commands, results }
    }

    /// Enqueues `cmd` without blocking; `false` when the command bus is full
    /// (or the worker is gone) and the command was dropped.
    pub fn enqueue(&self, cmd: ApiCommand) -> (r: bool) {
        match offer(&self.commands, ThreadMessage::Api(cmd)) {
            Ok(()) => true,
            Err(_) => false,
        }
    }

    /// Takes at most one queued result without blocking. A command found on
    /// the result bus is not a result and is dropped.
    pub fn poll(&self) -> (r: Option<UIData>) {
        match take_queued(&self.results) {
            Some(ThreadMessage::Data(d)) => Some(d),
            Some(ThreadMessage::Api(_)) => None,
            None => None,
        }
    }
}

/// Posts a worker result without blocking; `false` when the result bus is full
/// (or the consumer is gone) and the result was dropped.
pub fn post_result(results: &Sender<ThreadMessage>, data: UIData) -> (r: bool) {
    match offer(results, ThreadMessage::Data(data)) {
        Ok(()) => true,
        Err(_) => false,
    }
}

} // verus!
