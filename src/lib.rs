//! The verified core of a WebAssembly embedding for a message-passing host:
//! value marshalling, the callback bridge, the decisions of an export call,
//! memory access checks, module descriptions, and in-memory pipes.

pub mod bridge;
pub mod dispatch;
pub mod memory;
pub mod module;
pub mod pipe;
pub mod values;
