//! A rendezvous point for threads.
//!
//! A [`Rendezvous`] hands out [`RendezvousGuard`]s to the parties it wants to
//! wait for. Every guard, and every guard forked from a guard, stands for one
//! party that has not finished yet. Dropping a guard signals that its party is
//! done. The rendezvous itself holds one more endpoint of the same channel,
//! which it gives up when it starts to wait; the wait is over once no endpoint
//! is left.
//!
//! A thread that waits while it keeps one of the guards alive itself waits
//! for ever; [`Rendezvous::rendezvous_timeout`] bounds the wait instead.
//!
//! - [`coordinator`] holds the [`Rendezvous`], [`guard`] the
//!   [`RendezvousGuard`], [`error`] the [`RendezvousTimeoutError`].
//! - [`phase`] describes the life of a rendezvous as a state machine and
//!   proves what holds of it.
//! - [`channel`] is the boundary to `std::sync::mpsc`: what is stated there
//!   is relied on, not proved.

pub mod channel;
pub mod coordinator;
pub mod error;
pub mod guard;
pub mod phase;

pub use crate::channel::WaitSignal;
pub use crate::coordinator::Rendezvous;
pub use crate::error::RendezvousTimeoutError;
pub use crate::guard::RendezvousGuard;
pub use crate::phase::Phase;
