//! Process and thread lifecycle rules of a Linux-compatible system-call layer.
//!
//! Every operation takes the calling task's record explicitly and returns,
//! next to the value handed back to user mode, the effects that the
//! surrounding kernel has to carry out (a store to user memory, a register
//! to load, a task to terminate). The rules themselves touch neither memory
//! nor hardware, so each of them is proved against its contract.

pub mod arch;
pub mod error;
pub mod exec;
pub mod fd_ops;
pub mod task;
pub mod thread;
pub mod wait;

