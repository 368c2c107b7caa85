//! Capability probing: deciding empirically, per machine, whether a
//! feature is usable, and interpreting identical low-level failures
//! differently depending on why the access was attempted.
//!
//! While a probe is in progress, a failed register access means "the
//! feature is unsupported here": the feature is left out of the feature
//! set and the probe returns normally.  The same failure during real
//! operation is escalated: permission denial is fatal (with a Secure
//! Boot hint), anything else is a transient error for the current tick.

use crate::codec::calc_undervolt_mv;
use crate::error::{ControlError, FatalReason};
use crate::port::{mailbox_transaction, PortError, RegisterBackend};
use crate::tables::Plane;
use vstd::prelude::*;

verus! {

/// A feature tag that probing can admit into the feature set.
#[derive(Clone, Copy, Debug, PartialEq, Eq, Structural)]
pub enum Feature {
    Undervolt,
}

/// The features found usable on this machine.  Populated once, during
/// the probe phase, and read-only for the rest of the process: the
/// control loop may exercise a feature only if it is in here.
#[derive(Clone, Copy, Debug, PartialEq, Eq, Structural)]
pub struct FeatureSet {
    pub undervolt: bool,
}

impl FeatureSet {
    /// Whether a feature was admitted.
    pub open spec fn spec_contains(self, f: Feature) -> bool {
        match f {
            Feature::Undervolt => self.undervolt,
        }
    }

    /// The empty set every process starts from.
    pub fn new() -> (s: FeatureSet)
        ensures
            forall|f: Feature| !s.spec_contains(f),
    {
        FeatureSet { undervolt: false }
    }

    /// Executable counterpart of [`FeatureSet::spec_contains`].
    pub fn contains(&self, f: Feature) -> (b: bool)
        ensures
            b == self.spec_contains(f),
    {
        match f {
            Feature::Undervolt => self.undervolt,
        }
    }
}

/// What a mailbox command to read one plane's undervolt looks like:
/// top byte 0x80 (write-enabled), read-trigger sub-code 0x10 in bits
/// 32-39, the plane index in bits 40-47.
pub open spec fn spec_undervolt_read_cmd(plane: Plane) -> u64 {
    0x8000_0010_0000_0000u64 | (plane.spec_index() << 40)
}

/// Builds the mailbox command that triggers an undervolt read for one
/// voltage plane.
pub fn undervolt_read_cmd(plane: Plane) -> (w: u64)
    ensures
        w == spec_undervolt_read_cmd(plane),
{
    0x8000_0010_0000_0000u64 | (plane.index() << 40)
}

/// Interprets a low-level register failure by context.  This asymmetry
/// is the probing layer's central contract: inside a probe section any
/// failure only means the feature is unsupported; outside one,
/// permission denial is fatal and anything else is transient.
pub open spec fn spec_classify(e: PortError, probing: bool) -> ControlError {
    if probing {
        ControlError::Unsupported
    } else if e == PortError::PermissionDenied {
        ControlError::Fatal(FatalReason::SecureBoot)
    } else {
        ControlError::Transient
    }
}

/// Executable counterpart of [`spec_classify`].
pub fn classify_port_error(e: PortError, probing: bool) -> (r: ControlError)
    ensures
        r == spec_classify(e, probing),
{
    if probing {
        ControlError::Unsupported
    } else {
        match e {
            PortError::PermissionDenied => ControlError::Fatal(FatalReason::SecureBoot),
            PortError::Io => ControlError::Transient,
        }
    }
}

/// The probe/steady-state error policy: no failure inside a probe
/// section ever obliges the process to terminate, while the identical
/// permission denial in steady-state operation always does.
pub proof fn lemma_probe_error_policy(e: PortError)
    ensures
        !spec_classify(e, true).spec_is_abort(),
        spec_classify(e, true) == ControlError::Unsupported,
        spec_classify(PortError::PermissionDenied, false) == ControlError::Fatal(
            FatalReason::SecureBoot,
        ),
        spec_classify(PortError::PermissionDenied, false).spec_is_abort(),
        e != PortError::PermissionDenied ==> !spec_classify(e, false).spec_is_abort(),
{
}

/// Reads the current undervolt of one plane, or of every voltage plane,
/// through the mailbox.  `convert` selects millivolts over the raw
/// 32-bit response.  Outside a probe (`probing == false`) this is a
/// real operation and requires the feature to have been admitted;
/// during a probe the feature is not in the set yet and the read itself
/// is the test.  Every failure is classified by [`spec_classify`].
pub fn get_undervolt<B: RegisterBackend>(
    features: &FeatureSet,
    plane: Option<Plane>,
    convert: bool,
    probing: bool,
    backend: &mut B,
) -> (r: Result<Vec<(Plane, i64)>, ControlError>)
    ensures
        !probing && !features.spec_contains(Feature::Undervolt) ==> r == Err::<
            Vec<(Plane, i64)>,
            ControlError,
        >(ControlError::Unsupported),
        r matches Err(e) ==> (probing ==> e == ControlError::Unsupported),
        !probing && features.spec_contains(Feature::Undervolt) ==> (r matches Err(e) ==> e
            == ControlError::Fatal(FatalReason::SecureBoot) || e == ControlError::Transient),
        r matches Ok(out) ==> {
            &&& match plane {
                Some(p) => out@.map_values(|e: (Plane, i64)| e.0) =~= seq![p],
                None => out@.map_values(|e: (Plane, i64)| e.0) =~= Plane::spec_voltage_planes(),
            }
            &&& convert ==> forall|i: int|
                0 <= i < out@.len() ==> -1000 <= (#[trigger] out@[i]).1 <= 1000
            &&& !convert ==> forall|i: int|
                0 <= i < out@.len() ==> 0 <= (#[trigger] out@[i]).1 < 0x1_0000_0000
        },
{
    if !probing && !features.contains(Feature::Undervolt) {
        return Err(ControlError::Unsupported);
    }
    let planes: Vec<Plane> = match plane {
        Some(p) => {
            let mut v: Vec<Plane> = Vec::new();
            v.push(p);
            v
        },
        None => Plane::voltage_planes(),
    };
    let mut out: Vec<(Plane, i64)> = Vec::new();
    let mut i: usize = 0;
    while i < planes.len()
        invariant
            out@.len() == i,
            i <= planes@.len(),
            probing || features.spec_contains(Feature::Undervolt),
            match plane {
                Some(p) => planes@ =~= seq![p],
                None => planes@ =~= Plane::spec_voltage_planes(),
            },
            forall|j: int| 0 <= j < i ==> (#[trigger] out@[j]).0 == planes@[j],
            convert ==> forall|j: int| 0 <= j < i ==> -1000 <= (#[trigger] out@[j]).1 <= 1000,
            !convert ==> forall|j: int| 0 <= j < i ==> 0 <= (#[trigger] out@[j]).1 < 0x1_0000_0000,
        decreases planes@.len() - i,
    {
        let p = planes[i];
        let cmd = undervolt_read_cmd(p);
        match mailbox_transaction(backend, cmd) {
            Ok(response) => {
                let val: i64 = if convert {
                    calc_undervolt_mv(response)
                } else {
                    response as i64
                };
                out.push((p, val));
            },
            Err(e) => {
                return Err(classify_port_error(e, probing));
            },
        }
        i = i + 1;
    }
    proof {
        assert(out@.map_values(|e: (Plane, i64)| e.0) =~= planes@);
    }
    Ok(out)
}

/// The capability tester: owns the probe-in-progress flag and the
/// feature set it populates.  Only one probe runs at a time, and the
/// flag is reset on every exit path — stated as a postcondition of
/// each probe, not left to a manually managed boolean.
pub struct CapabilityTester {
    pub probing: bool,
    pub features: FeatureSet,
}

impl CapabilityTester {
    /// A fresh tester: no probe in progress, empty feature set.
    pub fn new() -> (t: CapabilityTester)
        ensures
            !t.probing,
            forall|f: Feature| !t.features.spec_contains(f),
    {
        CapabilityTester { probing: false, features: FeatureSet::new() }
    }

    /// Probes whether undervolting is usable: enters the probe section,
    /// exercises the feature's read path for every voltage plane, and
    /// exits the probe section on every path before returning.  The
    /// result says whether the exercise succeeded, and the feature is
    /// in the final set exactly when it was already admitted or this
    /// probe admitted it: a failed exercise only leaves the feature out
    /// of the set; it never aborts and never escalates, and nothing but
    /// the feature set and the probe flag is touched.
    pub fn test_msr_rw_capabilities<B: RegisterBackend>(&mut self, backend: &mut B) -> (admitted:
        bool)
        ensures
            !final(self).probing,
            final(self).features.undervolt == (old(self).features.undervolt || admitted),
            forall|f: Feature|
                old(self).features.spec_contains(f) ==> final(self).features.spec_contains(f),
    {
        self.probing = true;
        let res = get_undervolt(&self.features, None, false, true, backend);
        let admitted = match res {
            Ok(_) => true,
            Err(_) => {
                // Unsupported on this hardware: excluded, not fatal.
                false
            },
        };
        if admitted {
            self.features.undervolt = true;
        }
        self.probing = false;
        admitted
    }
}

} // verus!
