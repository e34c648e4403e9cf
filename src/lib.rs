//! Confidential decision-making for an execution platform: the deterministic
//! scoring circuits that the multi-party computation network evaluates, and the
//! orchestration layer that registers computation definitions, queues requests
//! and consumes their asynchronous outcomes.

pub mod gmpc;
pub mod multi_user;
pub mod curve;
pub mod risk;
pub mod strategy;
pub mod registry;
pub mod orchestration;
pub mod program;
