//! Device-model integration layer of a virtual machine monitor: publishes
//! virtio devices on the MMIO bus and the guest command line, and drives
//! their two-phase activation.

pub mod activation;
pub mod cmdline;
pub mod env;
pub mod error;
pub mod mmio;
pub mod signal;
