//! The logic of a type-1.5 hypervisor for x86_64: it is loaded by a running Linux, turns
//! hardware virtualization on under it, and from then on runs that Linux as its root cell.
//!
//! What the processor and the surrounding kernel do is outside this crate. A function that
//! needs a register takes its value; a function that acts on the machine puts the operations
//! on a [`arch::hw::HwQueue`], which the caller performs in order. That holds also where the
//! function fails: what it has queued up to then is performed.

pub mod arch;
pub mod boot;
pub mod cell;
pub mod error;
pub mod header;
pub mod memory;
pub mod percpu;
