//! A small library of verified design-pattern components.
//!
//! The centerpiece is an event-driven finite-state machine: a machine owns
//! exactly one state value and replaces it with the successor that the
//! current state computes for each dispatched event, reporting for every
//! event whether it was accepted or rejected.  The other modules hold the
//! smaller verified components that accompany it: a two-stack FIFO queue,
//! a factory for a closed family of products, a publish–subscribe pair of
//! traits with a news feed, and element lists built over a shared trait.

pub mod factory;
pub mod lists;
pub mod machine;
pub mod observer;
pub mod pizza;
pub mod queue;
pub mod toggle;
