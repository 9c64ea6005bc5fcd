//! Snapshot testing for binary data: an assertion compares a byte sequence
//! against recorded "golden" content, and an update mode regenerates the
//! golden content from the new actual value instead of failing.

pub mod diff;
pub mod engine;
pub mod position;
pub mod render;
pub mod store;
