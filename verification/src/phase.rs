//! The life of a rendezvous as a state machine.
//!
//! A rendezvous starts `Open`, holding its own endpoint of the channel. Its
//! first wait gives that endpoint up, which makes it `Closing`. Once a wait
//! has seen the channel closed it is `Resolved`, and stays so.

use crate::channel::WaitSignal;
use crate::error::RendezvousTimeoutError;
use vstd::prelude::*;

verus! {

/// Where a rendezvous stands.
#[derive(Clone, Copy, Debug, PartialEq, Eq, Structural)]
pub enum Phase {
    /// The rendezvous holds its own endpoint and has not waited yet.
    Open,
    /// The rendezvous has given up its own endpoint and has not yet seen the
    /// channel closed.
    Closing,
    /// The rendezvous has seen the channel closed: no guard is left.
    Resolved,
}

impl Phase {
    /// The phase after the rendezvous has given up its own endpoint, which
    /// only an open one still holds.
    pub open spec fn released(self) -> Phase {
        if self == Phase::Open {
            Phase::Closing
        } else {
            self
        }
    }
}

/// The phase after a wait that started in `before`, and what the wait
/// reports, where `signal` is what the channel came back with.
///
/// A resolved rendezvous does not consult the channel again. Otherwise the
/// wait succeeds, and resolves the rendezvous, exactly when the channel was
/// found closed; when the time ran out first, it fails.
pub open spec fn wait_step(before: Phase, signal: WaitSignal) -> (
    Phase,
    Result<(), RendezvousTimeoutError>,
) {
    if before == Phase::Resolved || signal == WaitSignal::Closed {
        (Phase::Resolved, Ok(()))
    } else {
        (Phase::Closing, Err(RendezvousTimeoutError::Timeout))
    }
}

/// Computes [`wait_step`].
pub fn settle(before: Phase, signal: WaitSignal) -> (after: (
    Phase,
    Result<(), RendezvousTimeoutError>,
))
    ensures
        after == wait_step(before, signal),
    opens_invariants none
    no_unwind
{
    match (before, signal) {
        (Phase::Resolved, _) | (_, WaitSignal::Closed) => (Phase::Resolved, Ok(())),
        (_, WaitSignal::TimedOut) => (Phase::Closing, Err(RendezvousTimeoutError::Timeout)),
    }
}

/// A wait starts by giving up the rendezvous' own endpoint, so it runs the
/// same from an open rendezvous as from one that has just released.
pub proof fn wait_releases_first(before: Phase, signal: WaitSignal)
    ensures
        wait_step(before, signal) == wait_step(before.released(), signal),
{
}

/// Giving up the endpoint happens once: on a rendezvous that is no longer
/// open it changes nothing, so releasing twice is releasing once.
pub proof fn release_is_idempotent(before: Phase)
    ensures
        before != Phase::Open ==> before.released() == before,
        before.released().released() == before.released(),
        before.released() != Phase::Open,
{
}

/// No wait brings a rendezvous back to `Open`.
pub proof fn wait_never_reopens(before: Phase, signal: WaitSignal)
    ensures
        wait_step(before, signal).0 != Phase::Open,
{
}

/// A wait succeeds exactly when it leaves the rendezvous `Resolved`, which
/// it does exactly when the rendezvous was resolved before or the channel
/// was found closed. Otherwise it fails with `Timeout` and leaves the
/// rendezvous `Closing`. So no wait succeeds while the rendezvous has not
/// seen every endpoint gone.
pub proof fn wait_succeeds_iff_resolved(before: Phase, signal: WaitSignal)
    ensures
        wait_step(before, signal).1 is Ok <==> wait_step(before, signal).0 == Phase::Resolved,
        wait_step(before, signal).0 == Phase::Resolved <==> before == Phase::Resolved || signal
            == WaitSignal::Closed,
        wait_step(before, signal).1 is Err ==> wait_step(before, signal) == (
            Phase::Closing,
            Err::<(), RendezvousTimeoutError>(RendezvousTimeoutError::Timeout),
        ),
{
}

/// A wait without a time limit ends only when the channel is closed, so it
/// always resolves the rendezvous. Dropping a rendezvous waits in this way,
/// and so has the effect of the blocking wait.
pub proof fn unbounded_wait_resolves(before: Phase)
    ensures
        wait_step(before, WaitSignal::Closed) == (
            Phase::Resolved,
            Ok::<(), RendezvousTimeoutError>(()),
        ),
{
}

/// Once resolved, always resolved: every later wait succeeds, whatever the
/// channel would say, and leaves the rendezvous as it is.
pub proof fn resolved_is_final(signal: WaitSignal)
    ensures
        wait_step(Phase::Resolved, signal) == (Phase::Resolved, Ok::<(), RendezvousTimeoutError>(())),
{
}

/// A wait on a rendezvous that has already given up its endpoint only
/// observes. There is nothing left to release, and the rendezvous is after
/// the wait what it was before, unless the wait found the channel closed.
pub proof fn later_wait_only_observes(before: Phase, signal: WaitSignal)
    requires
        before != Phase::Open,
    ensures
        before.released() == before,
        wait_step(before, signal).0 == if signal == WaitSignal::Closed {
            Phase::Resolved
        } else {
            before
        },
{
}

/// Waiting again after a wait that ran out of time is the same as waiting
/// for the first time: the earlier wait has used nothing up. After a wait
/// that found the channel closed, every wait succeeds.
pub proof fn wait_can_be_repeated(before: Phase, first: WaitSignal, second: WaitSignal)
    ensures
        first == WaitSignal::TimedOut ==> wait_step(wait_step(before, first).0, second)
            == wait_step(before, second),
        first == WaitSignal::Closed ==> wait_step(wait_step(before, first).0, second) == (
            Phase::Resolved,
            Ok::<(), RendezvousTimeoutError>(()),
        ),
{
}

} // verus!
