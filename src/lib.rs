//! Binding of host objects to two native records, `Wrapper` and `Nested`,
//! and the error that each failed binding reports to the host.

pub mod exception;
pub mod extract;
pub mod entry;
