//! The guard: one party that the rendezvous waits for.

use crate::channel::{clone_sender, sender_channel};
use std::convert::Infallible;
use std::sync::mpsc::Sender;
use vstd::prelude::*;

verus! {

/// A guard forked off a [`Rendezvous`](crate::coordinator::Rendezvous), or
/// off another guard.
///
/// While a guard is alive the rendezvous cannot resolve. A guard is released
/// by dropping it, at the end of its scope or through
/// [`completed`](RendezvousGuard::completed); there is no other way.
pub struct RendezvousGuard(Sender<Infallible>);

impl RendezvousGuard {
    /// The channel this guard keeps open: that of the rendezvous it descends
    /// from.
    pub closed spec fn lineage(&self) -> int {
        sender_channel(self.0)
    }

    /// Wraps a sending end as a guard of its channel.
    pub(crate) fn holding(tx: Sender<Infallible>) -> (guard: RendezvousGuard)
        ensures
            guard.lineage() == sender_channel(tx),
    {
        RendezvousGuard(tx)
    }

    /// Forks a guard off this one. The new guard stands beside this one: the
    /// rendezvous waits for both, in whatever order they are released.
    pub fn fork(&self) -> (child: RendezvousGuard)
        ensures
            child.lineage() == self.lineage(),
    {
        RendezvousGuard(clone_sender(&self.0))
    }

    /// Releases the guard. This names the point where a party is done; it
    /// does what dropping the guard does, and nothing else.
    pub fn completed(self) {
    }
}

} // verus!
