//! Read-only, forward-only cursors over immutable binary data.

pub mod binary;
