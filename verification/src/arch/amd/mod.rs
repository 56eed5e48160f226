//! Virtualization with AMD SVM.

pub mod field_laws;
pub mod laws;
pub mod vcpu;
pub mod vmcb;
