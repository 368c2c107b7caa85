//! Typed error severities, and the one top-level policy deciding
//! abort-versus-continue.
//!
//! Process-aborting calls are not scattered through the logic: every
//! failure is a value of [`ControlError`], and [`fatal`] is the single
//! place that decides whether the process must terminate over it.

use vstd::prelude::*;

verus! {

/// Why a failure is process-aborting.
#[derive(Clone, Copy, Debug, PartialEq, Eq, Structural)]
pub enum FatalReason {
    /// Not running with effective super-user privilege.
    NotRoot,
    /// The CPU vendor is not "GenuineIntel".
    NotIntel,
    /// CPU identity text was missing a field or held an unparsable one.
    UnidentifiedCpu,
    /// The parsed CPU identity is not in the microarchitecture table.
    UnsupportedCpu,
    /// No kernel build configuration could be obtained.
    NoKernelConfig,
    /// The kernel configuration lacks the register-access subsystem.
    BadKernelConfig,
    /// Permission was denied on a register device during real operation,
    /// most likely Secure Boot or a missing "allow writes" flag.
    SecureBoot,
}

/// A failure of the core, tagged with its severity.
#[derive(Clone, Copy, Debug, PartialEq, Eq, Structural)]
pub enum ControlError {
    /// Process-aborting; the reason selects the diagnostic.
    Fatal(FatalReason),
    /// The feature under probe is unsupported on this hardware.
    Unsupported,
    /// A register I/O error during a control-loop tick; the tick is
    /// skipped and the process keeps running.
    Transient,
    /// A configured target is outside the representable range.
    InvalidConfig,
}

impl ControlError {
    /// Whether this error obliges the process to terminate.
    pub open spec fn spec_is_abort(self) -> bool {
        self is Fatal
    }

    /// The diagnostic text each error carries.
    pub open spec fn spec_message(self) -> Seq<char> {
        match self {
            ControlError::Fatal(FatalReason::NotRoot) => "No root no party. Try again with sudo."@,
            ControlError::Fatal(FatalReason::NotIntel) => "This tool is designed for Intel CPUs only."@,
            ControlError::Fatal(FatalReason::UnidentifiedCpu) => "Unable to identify CPU model."@,
            ControlError::Fatal(FatalReason::UnsupportedCpu) => "Your CPU model is not supported."@,
            ControlError::Fatal(FatalReason::NoKernelConfig) => "Unable to obtain and validate kernel config."@,
            ControlError::Fatal(FatalReason::BadKernelConfig) => "Bad kernel config: you need CONFIG_X86_MSR builtin or as module."@,
            ControlError::Fatal(FatalReason::SecureBoot) => "Unable to read the register. Try to disable Secure Boot."@,
            ControlError::Unsupported => "The feature is not supported on this system."@,
            ControlError::Transient => "Unknown error while reading msr."@,
            ControlError::InvalidConfig => "A configured target is out of range."@,
        }
    }

    /// An actionable diagnostic for this error.
    pub fn message(&self) -> (r: String)
        ensures
            r@ == self.spec_message(),
    {
        match self {
            ControlError::Fatal(FatalReason::NotRoot) => {
                "No root no party. Try again with sudo.".to_owned()
            },
            ControlError::Fatal(FatalReason::NotIntel) => {
                "This tool is designed for Intel CPUs only.".to_owned()
            },
            ControlError::Fatal(FatalReason::UnidentifiedCpu) => {
                "Unable to identify CPU model.".to_owned()
            },
            ControlError::Fatal(FatalReason::UnsupportedCpu) => {
                "Your CPU model is not supported.".to_owned()
            },
            ControlError::Fatal(FatalReason::NoKernelConfig) => {
                "Unable to obtain and validate kernel config.".to_owned()
            },
            ControlError::Fatal(FatalReason::BadKernelConfig) => {
                "Bad kernel config: you need CONFIG_X86_MSR builtin or as module.".to_owned()
            },
            ControlError::Fatal(FatalReason::SecureBoot) => {
                "Unable to read the register. Try to disable Secure Boot.".to_owned()
            },
            ControlError::Unsupported => {
                "The feature is not supported on this system.".to_owned()
            },
            ControlError::Transient => {
                "Unknown error while reading msr.".to_owned()
            },
            ControlError::InvalidConfig => {
                "A configured target is out of range.".to_owned()
            },
        }
    }
}

/// The one top-level handler deciding abort-versus-continue: `true`
/// exactly on the process-aborting severity.
pub fn fatal(e: &ControlError) -> (abort: bool)
    ensures
        abort == e.spec_is_abort(),
{
    match e {
        ControlError::Fatal(_) => true,
        _ => false,
    }
}

} // verus!
