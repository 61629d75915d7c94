//! Generated-column resolution for a table write path: the protocol gate,
//! the placeholder injector and the per-row resolver of generated values.

pub mod batch;
pub mod generated;
pub mod placeholders;
pub mod protocol;

