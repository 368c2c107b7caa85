//! Kernel capability gating: privilege and kernel build configuration
//! must be validated before any register is touched.
//!
//! The two configuration sources (a plain text file keyed by the kernel
//! release, and a gzip-compressed system-exposed fallback) are read by
//! the surrounding process and handed in as bytes; decompression of the
//! fallback is delegated to an outside library behind a trusted wrapper.

use crate::error::{ControlError, FatalReason};
use crate::textscan::{contains_bytes, contains_seq};
use vstd::prelude::*;
use vstd::string::StringSliceAdditionalSpecFns;

verus! {

/// What gzip decompression yields for given input bytes: a function of
/// the bytes alone, `None` standing for undecodable input.
pub uninterp spec fn gunzip_of(data: Seq<u8>) -> Option<Seq<u8>>;

/// Relies on flate2's read::GzDecoder: decompresses one gzip member;
/// the outcome depends on the input bytes alone.
#[verifier::external_body]
fn gunzip(data: &Vec<u8>) -> (r: Option<Vec<u8>>)
    ensures
        match r {
            Some(out) => gunzip_of(data@) == Some(out@),
            None => gunzip_of(data@) is None,
        },
{
    let mut decoder = flate2::read::GzDecoder::new(data.as_slice());
    let mut out: Vec<u8> = Vec::new();
    match std::io::Read::read_to_end(&mut decoder, &mut out) {
        Ok(_) => Some(out),
        Err(_) => None,
    }
}

/// The configuration text the two sources yield: the plain primary
/// source wins; otherwise the fallback decompresses, or nothing does.
pub open spec fn spec_kernel_config_data(
    primary: Option<Seq<u8>>,
    fallback_gz: Option<Seq<u8>>,
) -> Option<Seq<u8>> {
    match primary {
        Some(d) => Some(d),
        None => match fallback_gz {
            Some(gz) => gunzip_of(gz),
            None => None,
        },
    }
}

/// Whether the configuration text enables the register-access
/// subsystem, built-in or as a loadable module.
pub open spec fn spec_msr_enabled(data: Seq<u8>) -> bool {
    contains_seq(data, "CONFIG_X86_MSR=y".spec_bytes()) || contains_seq(
        data,
        "CONFIG_X86_MSR=m".spec_bytes(),
    )
}

/// Whether the configuration text enables raw physical memory access;
/// its absence is only worth a warning.
pub open spec fn spec_devmem_enabled(data: Seq<u8>) -> bool {
    contains_seq(data, "CONFIG_DEVMEM=y".spec_bytes())
}

/// What a passed kernel check reports.
#[derive(Clone, Copy, Debug, PartialEq, Eq, Structural)]
pub struct KernelReport {
    /// When unset, the caller owes a warning: raw physical memory
    /// access is disabled, which is not strictly required.
    pub devmem_enabled: bool,
}

/// The byte sequences of an optional byte vector.
pub open spec fn spec_opt_bytes(o: Option<Vec<u8>>) -> Option<Seq<u8>> {
    match o {
        Some(v) => Some(v@),
        None => None,
    }
}

/// What validating privilege and kernel configuration yields: without
/// privilege the failure is fatal; with it, the configuration text (as
/// [`spec_kernel_config_data`] selects it) must exist and enable the
/// register-access subsystem.
pub open spec fn spec_check_kernel(
    euid: u32,
    primary: Option<Seq<u8>>,
    fallback_gz: Option<Seq<u8>>,
) -> Result<KernelReport, ControlError> {
    if euid != 0 {
        Err(ControlError::Fatal(FatalReason::NotRoot))
    } else {
        match spec_kernel_config_data(primary, fallback_gz) {
            Some(data) => {
                if spec_msr_enabled(data) {
                    Ok(KernelReport { devmem_enabled: spec_devmem_enabled(data) })
                } else {
                    Err(ControlError::Fatal(FatalReason::BadKernelConfig))
                }
            },
            None => Err(ControlError::Fatal(FatalReason::NoKernelConfig)),
        }
    }
}

/// Validates privilege and kernel build configuration.  `euid` is the
/// process's effective user id; `primary` is the release-keyed plain
/// configuration text if it could be read, `fallback_gz` the
/// compressed system-exposed configuration if it could be read.
/// Without privilege, or without a readable and valid configuration,
/// the failure is fatal.
pub fn check_kernel(euid: u32, primary: Option<Vec<u8>>, fallback_gz: Option<Vec<u8>>) -> (r:
    Result<KernelReport, ControlError>)
    ensures
        r == spec_check_kernel(euid, spec_opt_bytes(primary), spec_opt_bytes(fallback_gz)),
{
    if euid != 0 {
        return Err(ControlError::Fatal(FatalReason::NotRoot));
    }
    let data: Vec<u8> = match primary {
        Some(d) => d,
        None => match fallback_gz {
            Some(gz) => match gunzip(&gz) {
                Some(out) => out,
                None => {
                    return Err(ControlError::Fatal(FatalReason::NoKernelConfig));
                },
            },
            None => {
                return Err(ControlError::Fatal(FatalReason::NoKernelConfig));
            },
        },
    };
    if !contains_bytes(data.as_slice(), "CONFIG_X86_MSR=y".as_bytes()) && !contains_bytes(
        data.as_slice(),
        "CONFIG_X86_MSR=m".as_bytes(),
    ) {
        return Err(ControlError::Fatal(FatalReason::BadKernelConfig));
    }
    let devmem = contains_bytes(data.as_slice(), "CONFIG_DEVMEM=y".as_bytes());
    Ok(KernelReport { devmem_enabled: devmem })
}

} // verus!
