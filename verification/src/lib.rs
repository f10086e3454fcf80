//! A proposal-governance core: members create proposals, other accounts cast
//! yes/no votes inside a bounded voter set, and each proposal is resolved
//! (accepted or rejected) once its voting deadline tick is processed.
//!
//! The crate owns three pieces of state — a proposal store with a monotonic
//! identifier counter, a deadline schedule keyed by clock tick, and an event
//! log — and exposes the three operations `create_proposal`, `vote` and
//! `on_initialize` on them. Every operation is specified against the
//! mathematical model in [`model`] and verified to preserve the governance
//! invariants stated there.

pub mod bounded;
pub mod constants;
pub mod laws;
pub mod model;
pub mod pallet;
pub mod scheduler;
pub mod store;
pub mod types;
