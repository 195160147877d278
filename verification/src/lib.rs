//! Watches a stream of deployment snapshots and derives lifecycle events.
//!
//! The library is the verified core of a deployment notifier: a normalizer
//! that fills in missing snapshot fields, a transition detector that decides
//! which events (rollout started/completed, scale started/completed) an
//! observation fires, a state store that keeps per-resource bookkeeping so
//! the same logical event never fires twice, and the rendering of each
//! event to its notification text. Feed subscription and delivery live
//! outside the library.

pub mod decimal;
pub mod detector;
pub mod notifier;
pub mod state;
