//! The control layer: validated configuration snapshots, startup
//! gating, and the periodic application of configured targets through
//! the codec and the register port.
//!
//! Policy (what to apply, when) comes from external collaborators: the
//! configuration loader and the power-source monitor hand in plain
//! values, and the scheduling loop around [`tick`] lives outside.

use crate::codec::{calc_icc_max_msr, encode_undervolt_mv};
use crate::cpuid::{check_cpu, cpu_model_name, spec_check_cpu, spec_cpu_supported, CpuId};
use crate::error::{ControlError, FatalReason};
use crate::kernel::{check_kernel, spec_check_kernel, spec_opt_bytes};
use crate::port::{readmsr_flat, writemsr, RegisterBackend};
use crate::probe::{classify_port_error, Feature, FeatureSet};
use crate::tables::{Plane, Register};
use vstd::prelude::*;

verus! {

/// The register value selecting maximum hardware performance.
pub const HWP_PERFORMANCE_VALUE: u64 = 0x20;

/// The register value selecting the hardware's default balance.
pub const HWP_DEFAULT_VALUE: u64 = 0x80;

/// The power source the machine currently runs on.
#[derive(Clone, Copy, Debug, PartialEq, Eq, Structural)]
pub enum PowerSource {
    Ac,
    Battery,
}

/// Maps the power-source monitor's plain answer to the power source.
pub fn get_power_source(on_ac: bool) -> (p: PowerSource)
    ensures
        p == (if on_ac {
            PowerSource::Ac
        } else {
            PowerSource::Battery
        }),
{
    if on_ac {
        PowerSource::Ac
    } else {
        PowerSource::Battery
    }
}

/// One plane's undervolt target in millivolts, per power state.
#[derive(Clone, Copy, Debug, PartialEq, Eq, Structural)]
pub struct UndervoltTarget {
    pub plane: Plane,
    pub ac_mv: i64,
    pub battery_mv: i64,
}

/// One plane's current limit in milliamps, per power state.
#[derive(Clone, Copy, Debug, PartialEq, Eq, Structural)]
pub struct IccMaxTarget {
    pub plane: Plane,
    pub ac_ma: u64,
    pub battery_ma: u64,
}

/// A configuration snapshot, immutable for the duration of one tick.
#[derive(Debug)]
pub struct Config {
    /// Thermal trip bound in whole degrees Celsius; must lie in
    /// [40, 97] inclusive.
    pub trip_temp_c: i64,
    pub undervolt_targets: Vec<UndervoltTarget>,
    pub iccmax_targets: Vec<IccMaxTarget>,
    pub hwp_performance_value: u64,
    pub hwp_default_value: u64,
    /// The control loop's tick interval in milliseconds.
    pub monitor_ms: u64,
    /// Skips CPU and kernel gating when set.
    pub force: bool,
}

impl Config {
    /// The defaults a fresh configuration starts from: no targets, a
    /// one-second monitor interval, gating on.
    pub fn new() -> (c: Config)
        ensures
            c.trip_temp_c == 97,
            c.undervolt_targets@.len() == 0,
            c.iccmax_targets@.len() == 0,
            c.hwp_performance_value == HWP_PERFORMANCE_VALUE,
            c.hwp_default_value == HWP_DEFAULT_VALUE,
            c.monitor_ms == 1000,
            !c.force,
    {
        Config {
            trip_temp_c: 97,
            undervolt_targets: Vec::new(),
            iccmax_targets: Vec::new(),
            hwp_performance_value: HWP_PERFORMANCE_VALUE,
            hwp_default_value: HWP_DEFAULT_VALUE,
            monitor_ms: 1000,
            force: false,
        }
    }
}

/// A valid snapshot: the trip temperature lies in [40, 97], every
/// undervolt target fits the 11-bit field's range, and every current
/// limit names a current plane and fits the command word's low 32 bits.
pub open spec fn spec_config_valid(c: Config) -> bool {
    &&& 40 <= c.trip_temp_c <= 97
    &&& forall|i: int|
        0 <= i < c.undervolt_targets@.len() ==> {
            let t = #[trigger] c.undervolt_targets@[i];
            -1000 <= t.ac_mv <= 1000 && -1000 <= t.battery_mv <= 1000
        }
    &&& forall|i: int|
        0 <= i < c.iccmax_targets@.len() ==> {
            let t = #[trigger] c.iccmax_targets@[i];
            t.plane.spec_is_current_plane() && t.ac_ma <= 250 * 0xFFFF_FFFF && t.battery_ma <= 250
                * 0xFFFF_FFFF
        }
}

/// Validates a configuration snapshot, as the loader collaborator
/// hands it in: the snapshot passes through unchanged exactly when
/// every bound holds; anything else is a configuration error.  (The
/// on-disk format belongs to the excluded loader; only the values'
/// validity is this library's business.)
pub fn parse_config(c: Config) -> (r: Result<Config, ControlError>)
    ensures
        spec_config_valid(c) ==> r == Ok::<Config, ControlError>(c),
        !spec_config_valid(c) ==> r == Err::<Config, ControlError>(ControlError::InvalidConfig),
{
    if c.trip_temp_c < 40 || c.trip_temp_c > 97 {
        return Err(ControlError::InvalidConfig);
    }
    let mut i: usize = 0;
    while i < c.undervolt_targets.len()
        invariant
            i <= c.undervolt_targets@.len(),
            forall|j: int|
                0 <= j < i ==> {
                    let t = #[trigger] c.undervolt_targets@[j];
                    -1000 <= t.ac_mv <= 1000 && -1000 <= t.battery_mv <= 1000
                },
        decreases c.undervolt_targets@.len() - i,
    {
        let t = c.undervolt_targets[i];
        if t.ac_mv < -1000 || t.ac_mv > 1000 || t.battery_mv < -1000 || t.battery_mv > 1000 {
            return Err(ControlError::InvalidConfig);
        }
        i = i + 1;
    }
    let mut k: usize = 0;
    while k < c.iccmax_targets.len()
        invariant
            k <= c.iccmax_targets@.len(),
            forall|j: int|
                0 <= j < k ==> {
                    let t = #[trigger] c.iccmax_targets@[j];
                    t.plane.spec_is_current_plane() && t.ac_ma <= 250 * 0xFFFF_FFFF && t.battery_ma
                        <= 250 * 0xFFFF_FFFF
                },
        decreases c.iccmax_targets@.len() - k,
    {
        let t = c.iccmax_targets[k];
        if !t.plane.is_current_plane() || t.ac_ma > 250 * 0xFFFF_FFFF || t.battery_ma > 250
            * 0xFFFF_FFFF {
            return Err(ControlError::InvalidConfig);
        }
        k = k + 1;
    }
    Ok(c)
}

/// What the startup gate yields when not forced: the kernel check,
/// then the CPU identity, then the microarchitecture table, each
/// failure fatal.  Forcing skips the gating entirely.
pub open spec fn spec_gate_startup(
    force: bool,
    euid: u32,
    primary: Option<Seq<u8>>,
    fallback_gz: Option<Seq<u8>>,
    cpu_text: Seq<u8>,
) -> Result<StartupReport, ControlError> {
    if force {
        Ok(StartupReport { cpu: None, devmem_enabled: true })
    } else {
        match spec_check_kernel(euid, primary, fallback_gz) {
            Err(e) => Err(e),
            Ok(krep) => match spec_check_cpu(cpu_text) {
                Err(e) => Err(e),
                Ok(id) => if spec_cpu_supported(id) {
                    Ok(StartupReport { cpu: Some(id), devmem_enabled: krep.devmem_enabled })
                } else {
                    Err(ControlError::Fatal(FatalReason::UnsupportedCpu))
                },
            },
        }
    }
}

/// What passing the startup gate establishes.
#[derive(Clone, Copy, Debug, PartialEq, Eq, Structural)]
pub struct StartupReport {
    /// The identified CPU; absent when gating was forced off.
    pub cpu: Option<CpuId>,
    /// When unset, the caller owes a warning (raw physical memory
    /// access disabled); forced startup skips the check.
    pub devmem_enabled: bool,
}

/// Gates startup: validates kernel prerequisites and CPU identity
/// before any register is touched, unless forced.
pub fn gate_startup(
    force: bool,
    euid: u32,
    primary: Option<Vec<u8>>,
    fallback_gz: Option<Vec<u8>>,
    cpu_text: &[u8],
) -> (r: Result<StartupReport, ControlError>)
    ensures
        r == spec_gate_startup(
            force,
            euid,
            spec_opt_bytes(primary),
            spec_opt_bytes(fallback_gz),
            cpu_text@,
        ),
{
    if force {
        return Ok(StartupReport { cpu: None, devmem_enabled: true });
    }
    let krep = match check_kernel(euid, primary, fallback_gz) {
        Ok(k) => k,
        Err(e) => {
            return Err(e);
        },
    };
    let id = match check_cpu(cpu_text) {
        Ok(id) => id,
        Err(e) => {
            return Err(e);
        },
    };
    match cpu_model_name(id) {
        Some(_) => Ok(StartupReport { cpu: Some(id), devmem_enabled: krep.devmem_enabled }),
        None => Err(ControlError::Fatal(FatalReason::UnsupportedCpu)),
    }
}

/// Platform quantities decoded out of raw register words.
#[derive(Clone, Copy, Debug, PartialEq, Eq, Structural)]
pub struct PlatformInfo {
    /// The maximum non-turbo ratio, bits 8-15 of MSR_PLATFORM_INFO.
    pub max_non_turbo_ratio: u8,
    /// The RAPL time-unit exponent, bits 16-19 of MSR_RAPL_POWER_UNIT:
    /// one hardware tick is 1/2^exp seconds.
    pub rapl_time_unit_exp: u8,
}

/// Decodes the two platform quantities from the raw register words.
pub fn decode_platform_info(platform_raw: u64, rapl_unit_raw: u64) -> (p: PlatformInfo)
    ensures
        p.max_non_turbo_ratio == (platform_raw >> 8) & 0xFF,
        p.rapl_time_unit_exp == (rapl_unit_raw >> 16) & 0xF,
{
    let ratio = (platform_raw >> 8) & 0xFF;
    let exp = (rapl_unit_raw >> 16) & 0xF;
    proof {
        assert((platform_raw >> 8) & 0xFF <= 0xFF) by (bit_vector);
        assert((rapl_unit_raw >> 16) & 0xF <= 0xF) by (bit_vector);
    }
    PlatformInfo { max_non_turbo_ratio: ratio as u8, rapl_time_unit_exp: exp as u8 }
}

/// Reads and decodes the platform quantities.  This is real (steady
/// state) operation: permission denial is fatal, other failures
/// transient.
pub fn get_platform_info<B: RegisterBackend>(backend: &mut B) -> (r: Result<
    PlatformInfo,
    ControlError,
>)
    ensures
        r matches Err(e) ==> e == ControlError::Fatal(FatalReason::SecureBoot) || e
            == ControlError::Transient,
{
    let platform = match readmsr_flat(backend, Register::PlatformInfo) {
        Ok(v) => v.0.value,
        Err(e) => {
            return Err(classify_port_error(e, false));
        },
    };
    let rapl = match readmsr_flat(backend, Register::RaplPowerUnit) {
        Ok(v) => v.0.value,
        Err(e) => {
            return Err(classify_port_error(e, false));
        },
    };
    Ok(decode_platform_info(platform, rapl))
}

/// Reads the whole register catalog, in catalog order.  Real
/// operation: errors classify as fatal or transient.
pub fn get_reg_values<B: RegisterBackend>(backend: &mut B) -> (r: Result<
    Vec<(Register, u64)>,
    ControlError,
>)
    ensures
        r matches Err(e) ==> e == ControlError::Fatal(FatalReason::SecureBoot) || e
            == ControlError::Transient,
        r matches Ok(out) ==> out@.map_values(|p: (Register, u64)| p.0)
            =~= Register::spec_all(),
{
    let regs = Register::all();
    let mut out: Vec<(Register, u64)> = Vec::new();
    let mut i: usize = 0;
    while i < regs.len()
        invariant
            out@.len() == i,
            i <= regs@.len(),
            regs@ == Register::spec_all(),
            forall|j: int| 0 <= j < i ==> (#[trigger] out@[j]).0 == regs@[j],
        decreases regs@.len() - i,
    {
        let reg = regs[i];
        match readmsr_flat(backend, reg) {
            Ok(v) => out.push((reg, v.0.value)),
            Err(e) => {
                return Err(classify_port_error(e, false));
            },
        }
        i = i + 1;
    }
    proof {
        assert(out@.map_values(|p: (Register, u64)| p.0) =~= regs@);
    }
    Ok(out)
}

/// The HWP request value for a performance state.
pub fn hwp_value(performance: bool) -> (v: u64)
    ensures
        v == (if performance {
            HWP_PERFORMANCE_VALUE
        } else {
            HWP_DEFAULT_VALUE
        }),
{
    if performance {
        HWP_PERFORMANCE_VALUE
    } else {
        HWP_DEFAULT_VALUE
    }
}

/// Writes the HWP request register: the performance value on AC, the
/// default otherwise.  Real operation: errors classify as fatal or
/// transient.
pub fn set_hwp<B: RegisterBackend>(backend: &mut B, performance: bool) -> (r: Result<
    (),
    ControlError,
>)
    ensures
        r matches Err(e) ==> e == ControlError::Fatal(FatalReason::SecureBoot) || e
            == ControlError::Transient,
{
    let value = hwp_value(performance);
    match writemsr(backend, Register::HwpRequest, value) {
        Ok(()) => Ok(()),
        Err(e) => Err(classify_port_error(e, false)),
    }
}

/// Encodes and writes one plane's current limit through the mailbox.
/// Real operation: errors classify as fatal or transient.
pub fn set_icc_max<B: RegisterBackend>(backend: &mut B, plane: Plane, milliamps: u64) -> (r:
    Result<(), ControlError>)
    requires
        plane.spec_is_current_plane(),
        milliamps <= 250 * 0xFFFF_FFFFu64,
    ensures
        r matches Err(e) ==> e == ControlError::Fatal(FatalReason::SecureBoot) || e
            == ControlError::Transient,
{
    let word = calc_icc_max_msr(plane, milliamps);
    match writemsr(backend, Register::OcMailbox, word) {
        Ok(()) => Ok(()),
        Err(e) => Err(classify_port_error(e, false)),
    }
}

/// The mailbox command word applying one plane's undervolt: top byte
/// 0x80 (write-enabled), write sub-code 0x11 in bits 32-39, the plane
/// index in bits 40-47, and the 11-bit field at bits 21-31 of the low
/// 32 bits — the same bit range the decode reads.
///
/// The sub-code 0x11, like the command codes of the read trigger and
/// the current limit, is reverse-engineered protocol knowledge, not
/// derived from first principles: validate it against vendor
/// documentation or empirical testing before trusting it on new
/// hardware.
pub open spec fn spec_undervolt_write_cmd(plane: Plane, field: u64) -> u64
    recommends
        field <= 0x7FF,
{
    0x8000_0011_0000_0000u64 | (plane.spec_index() << 40) | (field << 21)
}

/// Builds the mailbox command applying one plane's undervolt field.
pub fn undervolt_write_cmd(plane: Plane, field: u64) -> (w: u64)
    requires
        field <= 0x7FF,
    ensures
        w == spec_undervolt_write_cmd(plane, field),
{
    0x8000_0011_0000_0000u64 | (plane.index() << 40) | (field << 21)
}

/// Applies the undervolt targets, one mailbox write per plane.  The
/// feature must have been admitted by probing; targets outside the
/// representable range are a configuration error found before any
/// write.  Real operation: register errors classify as fatal or
/// transient.
pub fn undervolt<B: RegisterBackend>(
    backend: &mut B,
    features: &FeatureSet,
    targets: &Vec<(Plane, i64)>,
) -> (r: Result<(), ControlError>)
    ensures
        !features.spec_contains(Feature::Undervolt) ==> r == Err::<(), ControlError>(
            ControlError::Unsupported,
        ),
        features.spec_contains(Feature::Undervolt) ==> (r matches Err(e) ==> e
            == ControlError::InvalidConfig || e == ControlError::Fatal(FatalReason::SecureBoot)
            || e == ControlError::Transient),
        features.spec_contains(Feature::Undervolt) && !(forall|i: int|
            0 <= i < targets@.len() ==> -1000 <= (#[trigger] targets@[i]).1 <= 1000) ==> r == Err::<
            (),
            ControlError,
        >(ControlError::InvalidConfig),
        features.spec_contains(Feature::Undervolt) && (forall|i: int|
            0 <= i < targets@.len() ==> -1000 <= (#[trigger] targets@[i]).1 <= 1000) ==> (
        r matches Err(e) ==> e == ControlError::Fatal(FatalReason::SecureBoot) || e
            == ControlError::Transient),
        r is Ok ==> forall|i: int|
            0 <= i < targets@.len() ==> -1000 <= (#[trigger] targets@[i]).1 <= 1000,
{
    if !features.contains(Feature::Undervolt) {
        return Err(ControlError::Unsupported);
    }
    let mut fields: Vec<(Plane, u64)> = Vec::new();
    let mut i: usize = 0;
    while i < targets.len()
        invariant
            features.spec_contains(Feature::Undervolt),
            fields@.len() == i,
            i <= targets@.len(),
            forall|j: int| 0 <= j < i ==> -1000 <= (#[trigger] targets@[j]).1 <= 1000,
            forall|j: int| 0 <= j < i ==> (#[trigger] fields@[j]).1 <= 0x7FF,
        decreases targets@.len() - i,
    {
        let (plane, mv) = targets[i];
        match encode_undervolt_mv(mv) {
            Ok(field) => fields.push((plane, field)),
            Err(_) => {
                return Err(ControlError::InvalidConfig);
            },
        }
        i = i + 1;
    }
    let mut k: usize = 0;
    while k < fields.len()
        invariant
            features.spec_contains(Feature::Undervolt),
            k <= fields@.len(),
            forall|j: int| 0 <= j < fields@.len() ==> (#[trigger] fields@[j]).1 <= 0x7FF,
            forall|j: int| 0 <= j < targets@.len() ==> -1000 <= (#[trigger] targets@[j]).1 <= 1000,
        decreases fields@.len() - k,
    {
        let (plane, field) = fields[k];
        let cmd = undervolt_write_cmd(plane, field);
        match writemsr(backend, Register::OcMailbox, cmd) {
            Ok(()) => {},
            Err(e) => {
                return Err(classify_port_error(e, false));
            },
        }
        k = k + 1;
    }
    Ok(())
}

/// One control-loop tick: selects the AC or battery variant of each
/// configured target and applies undervolt, current limits and the HWP
/// request through the port.  The caller decides, through
/// [`crate::error::fatal`], whether an error aborts the process or
/// only skips this tick.
pub fn tick<B: RegisterBackend>(
    backend: &mut B,
    config: &Config,
    features: &FeatureSet,
    source: PowerSource,
) -> (r: Result<(), ControlError>)
    requires
        spec_config_valid(*config),
    ensures
        r matches Err(e) ==> e == ControlError::Fatal(FatalReason::SecureBoot) || e
            == ControlError::Transient,
{
    let on_ac = match source {
        PowerSource::Ac => true,
        PowerSource::Battery => false,
    };
    if features.contains(Feature::Undervolt) {
        let mut selected: Vec<(Plane, i64)> = Vec::new();
        let mut i: usize = 0;
        while i < config.undervolt_targets.len()
            invariant
                i <= config.undervolt_targets@.len(),
                selected@.len() == i,
                spec_config_valid(*config),
                forall|j: int| 0 <= j < i ==> -1000 <= (#[trigger] selected@[j]).1 <= 1000,
            decreases config.undervolt_targets@.len() - i,
        {
            let t = config.undervolt_targets[i];
            let mv = if on_ac {
                t.ac_mv
            } else {
                t.battery_mv
            };
            selected.push((t.plane, mv));
            i = i + 1;
        }
        match undervolt(backend, features, &selected) {
            Ok(()) => {},
            Err(e) => {
                return Err(e);
            },
        }
    }
    let mut k: usize = 0;
    while k < config.iccmax_targets.len()
        invariant
            k <= config.iccmax_targets@.len(),
            spec_config_valid(*config),
        decreases config.iccmax_targets@.len() - k,
    {
        let t = config.iccmax_targets[k];
        let ma = if on_ac {
            t.ac_ma
        } else {
            t.battery_ma
        };
        match set_icc_max(backend, t.plane, ma) {
            Ok(()) => {},
            Err(e) => {
                return Err(e);
            },
        }
        k = k + 1;
    }
    match set_hwp(backend, on_ac) {
        Ok(()) => Ok(()),
        Err(e) => Err(e),
    }
}

} // verus!
