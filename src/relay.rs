//! The two one-way channels between a producer of commands and a backend that
//! sends events back.
use vstd::prelude::*;

verus! {

/// Declares std's sending half of a channel.
#[verifier::external_type_specification]
#[verifier::external_body]
#[verifier::reject_recursive_types(T)]
pub struct ExSender<T>(std::sync::mpsc::Sender<T>);

/// Declares std's receiving half of a channel.
#[verifier::external_type_specification]
#[verifier::external_body]
#[verifier::reject_recursive_types(T)]
pub struct ExReceiver<T>(std::sync::mpsc::Receiver<T>);

/// Relies on `std::sync::mpsc::channel`: a new unbounded FIFO channel.
#[verifier::external_body]
fn open_channel<T>() -> (std::sync::mpsc::Sender<T>, std::sync::mpsc::Receiver<T>) {
    std::sync::mpsc::channel()
}

/// Relies on `Sender::send`: it fails only when the receiving half is gone,
/// and then hands the value back inside its `SendError`.
#[verifier::external_body]
fn send_on<T>(tx: &std::sync::mpsc::Sender<T>, v: T) -> (r: Result<(), T>)
    ensures
        r matches Err(w) ==> w == v,
{
    tx.send(v).map_err(|e| e.0)
}

/// Relies on `Receiver::try_iter`: every value buffered at the time of the
/// call, in the order sent, without blocking.
#[verifier::external_body]
fn drain<T>(rx: &std::sync::mpsc::Receiver<T>) -> Vec<T> {
    rx.try_iter().collect()
}

/// The producer's side: commands go out on one channel, events come back on
/// the other.
#[verifier::reject_recursive_types(C)]
#[verifier::reject_recursive_types(E)]
pub struct Relay<C, E> {
    commands: std::sync::mpsc::Sender<C>,
    events: std::sync::mpsc::Receiver<E>,
}

impl<C, E> Relay<C, E> {
    /// The half that commands are sent on.
    pub closed spec fn command_half(&self) -> std::sync::mpsc::Sender<C> {
        self.commands
    }

    /// The half that events are read from.
    pub closed spec fn event_half(&self) -> std::sync::mpsc::Receiver<E> {
        self.events
    }

    /// A relay over the given halves: commands go out on `commands`, events
    /// are read from `events`.
    pub fn new(commands: std::sync::mpsc::Sender<C>, events: std::sync::mpsc::Receiver<E>) -> (r:
        Self)
        ensures
            r.command_half() == commands,
            r.event_half() == events,
    {
        Relay { commands, events }
    }

    /// A relay and the backend's two halves: where it reads the commands, and
    /// where it sends the events.
    pub fn construct() -> (Self, std::sync::mpsc::Receiver<C>, std::sync::mpsc::Sender<E>) {
        let (cmd_tx, cmd_rx) = open_channel();
        let (evt_tx, evt_rx) = open_channel();
        (Relay::new(cmd_tx, evt_rx), cmd_rx, evt_tx)
    }

    /// Sends one command. When the backend has dropped its half, the command
    /// comes back as the error and this relay is of no further use.
    pub fn send(&self, cmd: C) -> (r: Result<(), C>)
        ensures
            r matches Err(c) ==> c == cmd,
    {
        send_on(&self.commands, cmd)
    }

    /// All events that have arrived so far, oldest first; empty when none has.
    pub fn events(&self) -> Vec<E> {
        drain(&self.events)
    }
}

} // verus!
