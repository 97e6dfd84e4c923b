//! A typed, ownership-safe embedding layer for a stack-based scripting
//! virtual machine.
//!
//! The engine itself (compiler, interpreter, garbage collector) is an
//! external black box reached over a C-style, stack-indexed interface; this
//! crate models everything the host can rely on at that boundary: the tagged
//! value read out of a stack slot, the net stack effect of every operation,
//! the handle's lifecycle, and the one-slot pending-error mailbox that the
//! engine's hooks fill and the call sites drain.
//!
//! Decisions the engine alone makes (did a compile succeed, what did a call
//! return, was a key present) enter as explicit outcome values, so every
//! rule of this layer is stated and checked for all possible engine answers.

pub mod error;
pub mod laws;
pub mod object;
pub mod text;
pub mod vm;

pub use error::Error;
pub use object::{Object, Payload, RawSlot};
pub use vm::{
    CallOutcome, ClosureResult, CompileOutcome, LookupOutcome, StringifyOutcome, Vm, VmData,
};
