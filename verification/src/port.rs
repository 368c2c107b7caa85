//! The register access layer: cross-core-consistent reads and serialized
//! writes against per-core register device nodes.
//!
//! The device nodes themselves are outside collaborators; they are
//! reached through the [`RegisterBackend`] interface, which hands this
//! layer plain 64-bit values.  The consistency discipline — all cores
//! are expected to agree, divergence is a warning and the first core's
//! value wins — is verified here over the collected values.

use crate::tables::Register;
use vstd::prelude::*;

verus! {

/// How a register device access failed.
#[derive(Clone, Copy, Debug, PartialEq, Eq, Structural)]
pub enum PortError {
    /// Likely Secure Boot, or the module's "allow writes" flag unset.
    PermissionDenied,
    /// Any other I/O failure on a device node.
    Io,
}

/// One per-core register device node set, as the surrounding process
/// provides it: `read_core` reads the 8-byte little-endian value at the
/// byte offset equal to the register address on one core's node, and
/// `write_reg` writes one.  Simulated backends drive the logic in tests
/// without touching real hardware.
pub trait RegisterBackend {
    /// How many logical cores have device nodes, indexed from zero.
    fn core_count(&mut self) -> (n: usize);

    /// Reads the register at `addr` on core `core`.
    fn read_core(&mut self, core: usize, addr: u64) -> (r: Result<u64, PortError>);

    /// Writes `value` to the register at `addr`.
    fn write_reg(&mut self, addr: u64, value: u64) -> (r: Result<(), PortError>);
}

/// The outcome of one cross-core read: the value (the first core's, by
/// policy) and whether any core disagreed with it.
#[derive(Clone, Copy, Debug, PartialEq, Eq, Structural)]
pub struct MsrRead {
    pub value: u64,
    /// Exactly one warning is owed per read with this set; divergence
    /// should never happen on homogeneous hardware and is not an error.
    pub divergent: bool,
}

/// Whether some value in the sequence disagrees with the first one.
pub open spec fn spec_divergent(vals: Seq<u64>) -> bool {
    exists|i: int| 0 <= i < vals.len() && #[trigger] vals[i] != vals[0]
}

/// Condenses the per-core values of one register into the read outcome:
/// deterministically the first core's value, with the divergence flag
/// set if and only if some core disagrees with it.
pub fn consolidate(values: &Vec<u64>) -> (r: MsrRead)
    requires
        values@.len() > 0,
    ensures
        r.value == values@[0],
        r.divergent == spec_divergent(values@),
{
    let head = values[0];
    let mut divergent = false;
    let mut i: usize = 1;
    while i < values.len()
        invariant
            1 <= i <= values@.len(),
            head == values@[0],
            divergent <==> exists|j: int| 0 <= j < i && #[trigger] values@[j] != values@[0],
        decreases values@.len() - i,
    {
        if values[i] != head {
            divergent = true;
        }
        i = i + 1;
    }
    MsrRead { value: head, divergent }
}

/// Reads one register on every core and condenses the values: all
/// cores agreeing yield that value without warning; a disagreement
/// yields the first core's value and the divergence flag.  The values
/// as collected, one per core, come back beside the outcome, and the
/// outcome is their consolidation.  Fails with the first failing
/// core's access error, or `Io` when no core exists.
pub fn readmsr_flat<B: RegisterBackend>(backend: &mut B, reg: Register) -> (r: Result<
    (MsrRead, Vec<u64>),
    PortError,
>)
    ensures
        r is Ok ==> r->Ok_0.1@.len() > 0 && r->Ok_0.0.value == r->Ok_0.1@[0],
        r is Ok ==> r->Ok_0.0.divergent == spec_divergent(r->Ok_0.1@),
{
    let addr = reg.addr();
    let n = backend.core_count();
    if n == 0 {
        return Err(PortError::Io);
    }
    let mut values: Vec<u64> = Vec::new();
    let mut core: usize = 0;
    while core < n
        invariant
            values@.len() == core,
        decreases n - core,
    {
        match backend.read_core(core, addr) {
            Ok(v) => values.push(v),
            Err(e) => {
                return Err(e);
            },
        }
        core = core + 1;
    }
    if values.len() == 0 {
        return Err(PortError::Io);
    }
    let outcome = consolidate(&values);
    Ok((outcome, values))
}

/// Writes a 64-bit payload to one register through the backend.
pub fn writemsr<B: RegisterBackend>(backend: &mut B, reg: Register, value: u64) -> (r: Result<
    (),
    PortError,
>) {
    backend.write_reg(reg.addr(), value)
}

/// One mailbox transaction: writes a command word to OC_MAILBOX, then
/// reads the same register back and returns the low 32 bits of the
/// response.  The write and its response read form one unit; no other
/// mailbox write may be interleaved, so the pair is issued back to back
/// from this single place.
pub fn mailbox_transaction<B: RegisterBackend>(backend: &mut B, command: u64) -> (r: Result<
    u64,
    PortError,
>)
    ensures
        r is Ok ==> r->Ok_0 <= 0xFFFF_FFFF,
{
    match writemsr(backend, Register::OcMailbox, command) {
        Ok(()) => {},
        Err(e) => {
            return Err(e);
        },
    }
    match readmsr_flat(backend, Register::OcMailbox) {
        Ok((read, _values)) => {
            let v = read.value;
            proof {
                assert(v & 0xFFFF_FFFF <= 0xFFFF_FFFF) by (bit_vector);
            }
            Ok(v & 0xFFFF_FFFF)
        },
        Err(e) => Err(e),
    }
}

} // verus!
