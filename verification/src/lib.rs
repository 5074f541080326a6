//! Userspace core of a synchronous, capability-based IPC substrate for a
//! microkernel operating system.
//!
//! Processes communicate only by rendezvous message passing over kernel-held
//! channels named by process-local capability ids. This crate provides the
//! syscall transport layer (operation encoding and typed error decoding), the
//! owning `Channel` handle, the fixed-layout `Message` with its per-process
//! staging buffer, and the per-process server dispatch loop.
//!
//! The kernel side of the capability table and of rendezvous delivery is
//! represented by an explicit, executable model (`kernel::System`), so that the
//! transport's delivery guarantees can be stated and proved; in a deployment the
//! same contracts describe the machine's trap instruction, which an embedding
//! program performs.

pub mod channel;
pub mod error;
pub mod kernel;
pub mod message;
pub mod server;
pub mod syscall;
