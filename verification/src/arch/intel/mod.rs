//! Virtualization with Intel VMX.

pub mod controls;
pub mod field_laws;
pub mod laws;
pub mod state;
pub mod vcpu;
pub mod vmcs;
