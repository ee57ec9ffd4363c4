//! A packet-capture session manager.
//!
//! The library decides; the capture engine acts. Every engine call (listing
//! devices, opening a handle, installing a filter, reading a packet) is made by
//! the caller, which hands its outcome to the session as a plain value. The
//! session holds the handle, keeps the open/closed state, and turns read
//! outcomes into bounded batches.
pub mod batch;
pub mod error;
pub mod session;
