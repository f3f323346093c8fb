//! A verified core for a queue-driven control agent that reconciles managed
//! PostgreSQL instances: it models the inbound lifecycle events, the derived
//! desired-state mutations, and the per-message reconciliation state machine
//! that decides, for every delivery, whether to act, requeue, archive or
//! report back to the control plane.
//!
//! The library is pure: every outside interaction (queue, cluster, cloud,
//! relational store) is represented as an effect request that a thin driver
//! performs, feeding the outcome back as an observation.

pub mod builder;
pub mod config;
pub mod coredb;
pub mod events;
pub mod laws;
pub mod reconciler;
pub mod supervisor;
