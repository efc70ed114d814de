//! Safety-bridging core for a host binding to a stack-based, garbage-collected
//! scripting virtual machine.
//!
//! The machine communicates through a single shared value stack and reports
//! failures by non-local control transfer.  This crate models that boundary as
//! plain data (`vm::Vm`) and verifies the logic that keeps crossings safe:
//! stack-depth accounting, the envelope format that carries typed errors and
//! captured panics through the machine as opaque values, the trampoline that
//! intercepts host-side failures, collector suspension during error
//! construction, and the tombstone tag that makes finalized foreign handles
//! permanently inert.

pub mod errors;
pub mod value;
pub mod vm;
pub mod stack;
pub mod gc;
pub mod envelope;
pub mod trampoline;
pub mod setup;
pub mod pcall;
pub mod laws;
