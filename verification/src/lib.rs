//! A platform-less, runtime-less actor computing model.
//!
//! The library keeps the decisions of the actor model (channel state,
//! task bookkeeping, the life cycles of actors, blockers, delayers and
//! streams, the reactor's order queue and the actor register) as plain
//! values whose behaviour is stated in contracts and proved.  The parts
//! that poll futures, wake tasks or talk to a runtime drive these values
//! from the outside.
pub mod actor;
pub mod address;
pub mod blocker;
pub mod context;
pub mod delayer;
pub mod message;
pub mod queue;
pub mod reactor;
pub mod register;
pub mod stream;

