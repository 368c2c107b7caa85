//! Verified core of a privileged daemon that tunes power and thermal
//! behaviour of an Intel processor through Model-Specific Registers
//! (MSRs).
//!
//! The crate holds the logic worth proving: the bit-level codecs that
//! translate physical targets into register command words, the
//! cross-core-consistent register read discipline, the capability
//! probing that decides at runtime which features are usable, and the
//! startup gating that validates CPU identity and kernel configuration.
//! All I/O (device nodes, sysfs, the scheduling loop) lives outside,
//! hands this library plain values, and takes plain values back.

pub mod codec;
pub mod control;
pub mod cpuid;
pub mod error;
pub mod kernel;
pub mod port;
pub mod probe;
pub mod tables;
pub mod textscan;
pub mod uname;
