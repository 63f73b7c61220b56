//! A CHIP-8 virtual machine.
//!
//! The crate is organised around an abstract machine ([`model::MachineState`])
//! whose instruction semantics are pure specification functions, and an
//! executable machine ([`VM`]) every operation of which is proved to follow
//! that semantics.  Decoding, encoding and the machine never panic: each
//! failure comes back as a [`VmError`] and leaves the machine untouched.
use vstd::prelude::*;

pub mod bits;
pub mod error;
pub mod hex;
pub mod laws;
pub mod model;
pub mod opcodes;
mod rng;
pub mod scheduler;
pub mod vm;

pub use error::VmError;
pub use model::{MachineState, SoundAction, FONTSET};
pub use opcodes::OpCode;
pub use scheduler::Scheduler;
pub use vm::VM;

verus! {

/// Number of return addresses the call stack can hold.
pub const STACK_SIZE: usize = 16;

/// Width of the framebuffer in pixels.
pub const SCREEN_WIDTH: u32 = 64;

/// Height of the framebuffer in pixels.
pub const SCREEN_HEIGHT: u32 = 32;

/// Width of the host window in physical pixels.
pub const WINDOW_WIDTH: u32 = 1024;

/// Height of the host window in physical pixels.
pub const WINDOW_HEIGHT: u32 = 512;

} // verus!
