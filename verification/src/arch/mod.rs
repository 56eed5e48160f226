//! The parts that depend on the processor.

pub mod amd;
pub mod context;
pub mod cpu;
pub mod hw;
pub mod intel;
pub mod percpu;
pub mod registers;
