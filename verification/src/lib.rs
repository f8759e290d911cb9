//! A verified model of a minimal worker/coordinator pattern: a
//! single-producer, single-consumer channel that hands each message from the
//! producer to the consumer exactly once and in send order, and a guarded
//! cell whose integer value is read and written only under a mutual-exclusion
//! lock that poisons itself when a holder aborts mid-critical-section.

pub mod channel;
pub mod lock;
pub mod restaurant;
