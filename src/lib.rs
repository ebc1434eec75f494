//! Lifecycle control of a long-running process registered as a platform
//! service: the decisions of every administrative action and of the service's
//! own entry point, as state machines that a host drives against the real
//! service manager.
pub mod state;
pub mod poll;
pub mod action;
pub mod control;
pub mod entry;
pub mod wait;
pub mod message;
