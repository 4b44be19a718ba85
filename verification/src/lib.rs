//! A connection lifecycle controller for a single logical bidirectional
//! transport session, in the style of a browser WebTransport connection.
//!
//! The controller tracks the session's readiness state, owns the reconnect
//! bookkeeping, and implements bounded, interval-based automatic reconnection
//! after an unexpected close. The transport primitive itself, the timer
//! service and the notification plumbing are external collaborators: the
//! controller communicates with them through [`action::Action`] values that it
//! returns and transport events that the surrounding runtime feeds back in.

pub mod action;
pub mod controller;
pub mod error;
pub mod laws;
pub mod options;
pub mod policy;
pub mod ready_state;
