//! The rendezvous: the side that waits.

use crate::channel::{
    await_closure, await_closure_for, clone_sender, open_channel, receiver_channel,
    sender_channel, WaitSignal,
};
use crate::error::RendezvousTimeoutError;
use crate::guard::RendezvousGuard;
use crate::phase::{settle, wait_step, Phase};
use std::convert::Infallible;
use std::sync::mpsc::{Receiver, Sender};
use std::time::Duration;
use vstd::prelude::*;

verus! {

/// A point at which one thread waits until every party it handed a guard to
/// is done.
///
/// A rendezvous that is dropped without having waited waits then: it cannot
/// be left behind while guards are alive.
pub struct Rendezvous {
    /// The receiving end. A wait on it returns once every sending end is
    /// gone.
    rx: Receiver<Infallible>,
    /// The rendezvous' own sending end, from which guards are forked. It is
    /// given up by the first wait.
    tx: Option<Sender<Infallible>>,
    /// Whether a wait has seen the channel closed.
    resolved: bool,
}

impl Rendezvous {
    /// While the rendezvous holds a sending end, it is one of its own
    /// channel, and the channel cannot have been seen closed.
    #[verifier::type_invariant]
    spec fn inv(self) -> bool {
        self.tx matches Some(tx) ==> !self.resolved && sender_channel(tx) == receiver_channel(
            self.rx,
        )
    }

    /// Where the rendezvous stands.
    pub closed spec fn spec_phase(&self) -> Phase {
        if self.tx.is_some() {
            Phase::Open
        } else if self.resolved {
            Phase::Resolved
        } else {
            Phase::Closing
        }
    }

    /// The channel of this rendezvous, which all its guards keep open.
    pub closed spec fn lineage(&self) -> int {
        receiver_channel(self.rx)
    }

    /// Creates a rendezvous. It is open and no guard exists yet.
    pub fn new() -> (rendezvous: Self)
        ensures
            rendezvous.phase() == Phase::Open,
    {
        let (tx, rx) = open_channel();
        Self { rx, tx: Some(tx), resolved: false }
    }

    /// Where the rendezvous stands.
    #[verifier::when_used_as_spec(spec_phase)]
    pub fn phase(&self) -> (phase: Phase)
        ensures
            phase == self.phase(),
        opens_invariants none
        no_unwind
    {
        match &self.tx {
            Some(_) => Phase::Open,
            None => if self.resolved {
                Phase::Resolved
            } else {
                Phase::Closing
            },
        }
    }

    /// Forks a guard off the rendezvous. Every wait from now on lasts until
    /// this guard, and every guard forked from it, has been dropped.
    ///
    /// The guard is a clone of the rendezvous' own endpoint, so the
    /// rendezvous must still hold it: it has to be open.
    pub fn fork_guard(&self) -> (guard: RendezvousGuard)
        requires
            self.phase() == Phase::Open,
        ensures
            guard.lineage() == self.lineage(),
    {
        proof {
            use_type_invariant(self);
        }
        match &self.tx {
            Some(tx) => RendezvousGuard::holding(clone_sender(tx)),
            None => vstd::pervasive::unreached(),
        }
    }

    /// Gives up the rendezvous' own endpoint, if it still holds it.
    fn release(&mut self)
        ensures
            final(self).phase() == old(self).phase().released(),
            final(self).lineage() == old(self).lineage(),
        opens_invariants none
        no_unwind
    {
        proof {
            use_type_invariant(&*self);
        }
        self.tx = None;
    }

    /// Waits until every guard is dropped, and consumes the rendezvous.
    ///
    /// A guard that the waiting thread itself keeps alive makes this a
    /// deadlock.
    pub fn rendezvous(self) {
        let mut rendezvous = self;
        rendezvous.rendezvous_internal();
    }

    /// Waits until every guard is dropped, but no longer than `timeout`.
    ///
    /// The first wait gives up the rendezvous' own endpoint; later ones only
    /// look at the guards that remain. After a timeout the rendezvous can
    /// wait again. Once resolved, it reports success at once.
    ///
    /// What the channel answers is up to the other threads and the clock.
    /// Whatever it is, the new phase and the outcome are those that
    /// [`wait_step`] gives for it: the wait succeeds exactly when it leaves
    /// the rendezvous resolved, and fails with `Timeout`, leaving it closing,
    /// otherwise.
    pub fn rendezvous_timeout(&mut self, timeout: Duration) -> (outcome: Result<
        (),
        RendezvousTimeoutError,
    >)
        ensures
            final(self).lineage() == old(self).lineage(),
            exists|signal: WaitSignal|
                (final(self).phase(), outcome) == #[trigger] wait_step(old(self).phase(), signal),
            outcome is Ok <==> final(self).phase() == Phase::Resolved,
            outcome is Err <==> final(self).phase() == Phase::Closing,
            old(self).phase() == Phase::Resolved ==> outcome is Ok,
    {
        let ghost before = self.phase();
        self.release();
        let released = self.phase();
        if released == Phase::Resolved {
            assert((released, Ok::<(), RendezvousTimeoutError>(())) == wait_step(
                before,
                WaitSignal::Closed,
            ));
            return Ok(());
        }
        let signal = await_closure_for(&self.rx, timeout);
        let (after, outcome) = settle(released, signal);
        self.resolved = after == Phase::Resolved;
        assert((self.phase(), outcome) == wait_step(before, signal));
        outcome
    }

    /// Gives up the rendezvous' own endpoint, if it still holds it, and
    /// blocks until the channel is closed, unless it has been seen closed
    /// before. Either way the rendezvous is resolved afterwards.
    fn rendezvous_internal(&mut self)
        ensures
            final(self).lineage() == old(self).lineage(),
            final(self).phase() == wait_step(old(self).phase(), WaitSignal::Closed).0,
            final(self).phase() == Phase::Resolved,
        opens_invariants none
        no_unwind
    {
        self.release();
        let released = self.phase();
        if released != Phase::Resolved {
            let signal = await_closure(&self.rx);
            let (after, _) = settle(released, signal);
            self.resolved = after == Phase::Resolved;
        }
    }
}

impl Default for Rendezvous {
    fn default() -> (rendezvous: Self)
        ensures
            rendezvous.phase() == Phase::Open,
    {
        Rendezvous::new()
    }
}

impl Drop for Rendezvous {
    /// Does what the blocking wait does: gives up the rendezvous' own
    /// endpoint, if it still holds it, and waits for the guards, unless a
    /// wait has already seen them all dropped. The rendezvous is resolved
    /// when this returns.
    fn drop(&mut self)
        ensures
            final(self).lineage() == old(self).lineage(),
            final(self).phase() == wait_step(old(self).phase(), WaitSignal::Closed).0,
            final(self).phase() == Phase::Resolved,
        opens_invariants none
        no_unwind
    {
        self.rendezvous_internal();
    }
}

} // verus!
