//! Client-side driver for the line-oriented control protocol of
//! network-attached smart lamps.
//!
//! The crate models a single lamp instruction — a validated [`cmd::Action`],
//! a transition [`cmd::Effect`] and a correlation id, packed into a
//! [`cmd::Command`] — and proves that its wire encoding is exactly the line
//! the device expects. The [`conn`] module holds the connection-establishment
//! policy: multi-address fallback with last-error reporting and the
//! zero-timeout rejection.

pub mod cmd;
pub mod conn;
