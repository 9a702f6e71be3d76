//! The signaling channel under a rendezvous: `std::sync::mpsc`, of which this
//! module states what the rest of the library relies on.
//!
//! Nothing is ever sent over the channel, and nothing can be: its values
//! would be of type `Infallible`, which has none. Only its closure matters:
//! the receiving end learns that the last sending end is gone.

use std::convert::Infallible;
use std::sync::mpsc::{Receiver, RecvTimeoutError, Sender};
use std::time::Duration;
use vstd::prelude::*;

verus! {

/// `std::sync::mpsc::Sender`, a sending end of a channel. Its inside is
/// hidden from the proofs.
#[verifier::external_type_specification]
#[verifier::external_body]
#[verifier::reject_recursive_types(T)]
pub struct ExSender<T>(Sender<T>);

/// `std::sync::mpsc::Receiver`, the receiving end of a channel. Its inside
/// is hidden from the proofs.
#[verifier::external_type_specification]
#[verifier::external_body]
#[verifier::reject_recursive_types(T)]
pub struct ExReceiver<T>(Receiver<T>);

/// The channel that a sending end belongs to. Nothing is known of it but
/// what [`open_channel`] and [`clone_sender`] say: two ends with the same
/// number belong to one channel. That two channels differ is said nowhere.
pub uninterp spec fn sender_channel(tx: Sender<Infallible>) -> int;

/// The channel that a receiving end belongs to, in the same terms as
/// [`sender_channel`].
pub uninterp spec fn receiver_channel(rx: Receiver<Infallible>) -> int;

/// What a wait on the receiving end came back with.
#[derive(Clone, Copy, Debug, PartialEq, Eq, Structural)]
pub enum WaitSignal {
    /// The time allowed ran out while a sending end was still alive.
    TimedOut,
    /// Every sending end is gone.
    Closed,
}

/// `std::sync::mpsc::channel`: the two ends it returns belong to one channel.
#[verifier::external_body]
pub(crate) fn open_channel() -> (ends: (Sender<Infallible>, Receiver<Infallible>))
    ensures
        sender_channel(ends.0) == receiver_channel(ends.1),
{
    std::sync::mpsc::channel()
}

/// `Sender::clone`: the clone sends to the same channel as the sender it was
/// made from.
#[verifier::external_body]
pub(crate) fn clone_sender(tx: &Sender<Infallible>) -> (twin: Sender<Infallible>)
    ensures
        sender_channel(twin) == sender_channel(*tx),
{
    tx.clone()
}

/// `Receiver::recv`: blocks until a value arrives or every sending end is
/// gone, and reports the latter as an error. No value of `Infallible` can
/// arrive, so the call returns only with that error: the signal is `Closed`.
/// The call is taken not to panic.
#[verifier::external_body]
pub(crate) fn await_closure(rx: &Receiver<Infallible>) -> (signal: WaitSignal)
    ensures
        signal == WaitSignal::Closed,
    opens_invariants none
    no_unwind
{
    match rx.recv() {
        Ok(never) => match never {},
        Err(_) => WaitSignal::Closed,
    }
}

/// `Receiver::recv_timeout`: as `recv`, but gives up once `timeout` has
/// passed. Which of the two signals comes back depends on the other threads
/// and on the clock, so nothing is said of it.
#[verifier::external_body]
pub(crate) fn await_closure_for(rx: &Receiver<Infallible>, timeout: Duration) -> (signal:
    WaitSignal)
{
    match rx.recv_timeout(timeout) {
        Ok(never) => match never {},
        Err(RecvTimeoutError::Timeout) => WaitSignal::TimedOut,
        Err(RecvTimeoutError::Disconnected) => WaitSignal::Closed,
    }
}

} // verus!
