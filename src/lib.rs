//! Subscriber intake and confirmation: validated identity values, confirmation
//! tokens and the pending-to-confirmed subscription state machine.

pub mod domain;
pub mod routes;
pub mod subscriptions;
