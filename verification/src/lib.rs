//! Synchronization core for a single shared boolean hardware indicator
//! (the keyboard's caps-lock light) mirrored across client processes
//! through a central broadcast relay.
//!
//! The crate holds the decision logic of one client: encoding and
//! parsing of the one-character wire payload, the edge-triggered /
//! echo-avoiding reconciliation steps, the supervisor's reconnect state
//! machine, and the small computations of the platform indicator
//! adapters. All transport and OS access lives outside, in an
//! unverified shell that feeds plain values to these functions.

pub mod adapter;
pub mod message;
pub mod reconciler;
pub mod supervisor;
