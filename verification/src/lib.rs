//! Sandcrust (Sandboxing C in Rust): wrapped functions run in a sandboxed child
//! process that talks to its parent over pipes.
//!
//! This crate holds the verified core: the wire encoding of the command word
//! that drives the child's loop, the reply of a call (which arguments come
//! back from the child, in which order, and where each goes in the caller),
//! and the lifecycle decisions of the sandbox object.  The arguments going
//! down to the child are written and read as typed values, one after the
//! other, by the code that wraps the functions; that part is not here.
pub mod wire;
pub mod protocol;
pub mod lifecycle;
pub mod bla;

pub use wire::{encode_command, decode_command, command_frame_len};
pub use protocol::{ArgKind, ProtocolError, changed_count, reply_len, store_changed_vars, restore_changed_vars};
pub use lifecycle::{SandcrustPid, TERMINATED, SandcrustForkResult, Sandcrust, SandcrustWrapper, ForkSetup, ChildInit, LoopAction, child_loop_step, sandcrust_init, sandcrust_pull_global, sandcrust_push_global};
