//! Anonymous one-shot note publishing.
//!
//! Every submission gets a freshly generated key pair, is turned into a
//! signed text note, handed to a single relay and acknowledged with a
//! checksummed display identifier. This crate holds the decisions of that
//! pipeline; connecting, sending and sleeping are left to the caller, who
//! reports what happened and is told what to do next.

pub mod bytes;
pub mod client;
pub mod encoder;
pub mod event;
pub mod keys;
pub mod relay;
pub mod submission;
