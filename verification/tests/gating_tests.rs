use rsthrottled::control::{
    decode_platform_info, gate_startup, get_platform_info, get_power_source, get_reg_values,
    hwp_value, parse_config, set_hwp, set_icc_max, tick, undervolt, Config, IccMaxTarget,
    PowerSource, UndervoltTarget,
};
use rsthrottled::cpuid::{check_cpu, cpu_model_name, CpuId};
use rsthrottled::error::{fatal, ControlError, FatalReason};
use rsthrottled::kernel::{check_kernel, KernelReport};
use rsthrottled::port::{PortError, RegisterBackend};
use rsthrottled::probe::FeatureSet;
use rsthrottled::tables::{Plane, Register};
use std::io::Write;

struct FixedBackend {
    value: u64,
    writes: Vec<(u64, u64)>,
}

impl RegisterBackend for FixedBackend {
    fn core_count(&mut self) -> usize {
        2
    }

    fn read_core(&mut self, _core: usize, _addr: u64) -> Result<u64, PortError> {
        Ok(self.value)
    }

    fn write_reg(&mut self, addr: u64, value: u64) -> Result<(), PortError> {
        self.writes.push((addr, value));
        Ok(())
    }
}

struct DeniedBackend;

impl RegisterBackend for DeniedBackend {
    fn core_count(&mut self) -> usize {
        1
    }

    fn read_core(&mut self, _core: usize, _addr: u64) -> Result<u64, PortError> {
        Err(PortError::PermissionDenied)
    }

    fn write_reg(&mut self, _addr: u64, _value: u64) -> Result<(), PortError> {
        Err(PortError::PermissionDenied)
    }
}

const CPUINFO: &[u8] = b"processor\t: 0\nvendor_id\t: GenuineIntel\ncpu family\t: 6\nmodel\t\t: 142\nmodel name\t: Intel(R) Core(TM) i5-8250U CPU @ 1.60GHz\nstepping\t: 10\n";

#[test]
fn test_check_cpu_parses_identity() {
    let id = check_cpu(CPUINFO).unwrap();
    assert_eq!(id, CpuId { family: 6, model: 142, stepping: 10 });
    assert_eq!(cpu_model_name(id), Some("KabyLake"));
}

#[test]
fn test_check_cpu_first_occurrence_wins() {
    let text = b"model : 78\nvendor_id : GenuineIntel\ncpu family : 6\nmodel : 142\nstepping : 3\n";
    let id = check_cpu(text).unwrap();
    assert_eq!(id, CpuId { family: 6, model: 78, stepping: 3 });
    assert_eq!(cpu_model_name(id), Some("Skylake"));
}

#[test]
fn test_check_cpu_rejects_other_vendor() {
    let text = b"vendor_id\t: AuthenticAMD\ncpu family\t: 23\nmodel\t: 1\nstepping\t: 1\n";
    let err = check_cpu(text).unwrap_err();
    assert_eq!(err, ControlError::Fatal(FatalReason::NotIntel));
    assert!(fatal(&err));
    assert_eq!(err.message(), "This tool is designed for Intel CPUs only.");
}

#[test]
fn test_check_cpu_missing_field() {
    let text = b"vendor_id\t: GenuineIntel\ncpu family\t: 6\nmodel\t: 142\n";
    let err = check_cpu(text).unwrap_err();
    assert_eq!(err, ControlError::Fatal(FatalReason::UnidentifiedCpu));
}

#[test]
fn test_check_cpu_unparsable_field() {
    let text = b"vendor_id: GenuineIntel\ncpu family: six\nmodel: 142\nstepping: 10\n";
    let err = check_cpu(text).unwrap_err();
    assert_eq!(err, ControlError::Fatal(FatalReason::UnidentifiedCpu));
}

#[test]
fn test_check_kernel_requires_root() {
    let err = check_kernel(1000, Some(b"CONFIG_X86_MSR=y".to_vec()), None).unwrap_err();
    assert_eq!(err, ControlError::Fatal(FatalReason::NotRoot));
    assert_eq!(err.message(), "No root no party. Try again with sudo.");
}

#[test]
fn test_check_kernel_primary_source() {
    let data = b"CONFIG_FOO=y\nCONFIG_X86_MSR=y\nCONFIG_DEVMEM=y\n".to_vec();
    let report = check_kernel(0, Some(data), None).unwrap();
    assert_eq!(report, KernelReport { devmem_enabled: true });
    let data = b"CONFIG_X86_MSR=m\n".to_vec();
    let report = check_kernel(0, Some(data), None).unwrap();
    assert_eq!(report, KernelReport { devmem_enabled: false });
}

#[test]
fn test_check_kernel_rejects_missing_msr() {
    let data = b"CONFIG_DEVMEM=y\n".to_vec();
    let err = check_kernel(0, Some(data), None).unwrap_err();
    assert_eq!(err, ControlError::Fatal(FatalReason::BadKernelConfig));
}

#[test]
fn test_check_kernel_gz_fallback() {
    let plain = b"CONFIG_X86_MSR=m\nCONFIG_DEVMEM=y\n";
    let mut encoder =
        flate2::write::GzEncoder::new(Vec::new(), flate2::Compression::default());
    encoder.write_all(plain).unwrap();
    let gz = encoder.finish().unwrap();
    // The compressed bytes hold the flags only after decompression.
    let report = check_kernel(0, None, Some(gz)).unwrap();
    assert_eq!(report, KernelReport { devmem_enabled: true });
}

#[test]
fn test_check_kernel_no_source() {
    let err = check_kernel(0, None, None).unwrap_err();
    assert_eq!(err, ControlError::Fatal(FatalReason::NoKernelConfig));
    let err = check_kernel(0, None, Some(b"not gzip at all".to_vec())).unwrap_err();
    assert_eq!(err, ControlError::Fatal(FatalReason::NoKernelConfig));
}

#[test]
fn test_gate_startup_force_skips_gating() {
    let report = gate_startup(true, 1000, None, None, b"").unwrap();
    assert_eq!(report.cpu, None);
    assert!(report.devmem_enabled);
}

#[test]
fn test_gate_startup_full_path() {
    let config = b"CONFIG_X86_MSR=y\nCONFIG_DEVMEM=y\n".to_vec();
    let report = gate_startup(false, 0, Some(config), None, CPUINFO).unwrap();
    assert_eq!(report.cpu, Some(CpuId { family: 6, model: 142, stepping: 10 }));
    assert!(report.devmem_enabled);
}

#[test]
fn test_gate_startup_unsupported_cpu() {
    let config = b"CONFIG_X86_MSR=y\n".to_vec();
    let text = b"vendor_id: GenuineIntel\ncpu family: 6\nmodel: 1\nstepping: 1\n";
    let err = gate_startup(false, 0, Some(config), None, text).unwrap_err();
    assert_eq!(err, ControlError::Fatal(FatalReason::UnsupportedCpu));
    assert_eq!(err.message(), "Your CPU model is not supported.");
}

#[test]
fn test_parse_config_trip_bounds() {
    let mut c = Config::new();
    assert_eq!(c.monitor_ms, 1000);
    assert!(!c.force);
    c.trip_temp_c = 39;
    assert!(matches!(parse_config(c), Err(ControlError::InvalidConfig)));
    let mut c = Config::new();
    c.trip_temp_c = 98;
    assert!(matches!(parse_config(c), Err(ControlError::InvalidConfig)));
    let mut c = Config::new();
    c.trip_temp_c = 40;
    assert!(parse_config(c).is_ok());
}

#[test]
fn test_parse_config_target_bounds() {
    let mut c = Config::new();
    c.undervolt_targets.push(UndervoltTarget { plane: Plane::Core, ac_mv: -1001, battery_mv: 0 });
    assert!(matches!(parse_config(c), Err(ControlError::InvalidConfig)));
    let mut c = Config::new();
    c.iccmax_targets.push(IccMaxTarget { plane: Plane::Uncore, ac_ma: 1, battery_ma: 1 });
    assert!(matches!(parse_config(c), Err(ControlError::InvalidConfig)));
    let mut c = Config::new();
    c.undervolt_targets.push(UndervoltTarget {
        plane: Plane::Core,
        ac_mv: -50,
        battery_mv: -105,
    });
    c.iccmax_targets.push(IccMaxTarget { plane: Plane::Gpu, ac_ma: 5500, battery_ma: 4000 });
    assert!(parse_config(c).is_ok());
}

#[test]
fn test_power_source() {
    assert_eq!(get_power_source(true), PowerSource::Ac);
    assert_eq!(get_power_source(false), PowerSource::Battery);
}

#[test]
fn test_hwp_values() {
    assert_eq!(hwp_value(true), 0x20);
    assert_eq!(hwp_value(false), 0x80);
    let mut backend = FixedBackend { value: 0, writes: vec![] };
    set_hwp(&mut backend, true).unwrap();
    set_hwp(&mut backend, false).unwrap();
    assert_eq!(backend.writes, vec![(0x774, 0x20), (0x774, 0x80)]);
}

#[test]
fn test_set_icc_max_writes_mailbox() {
    let mut backend = FixedBackend { value: 0, writes: vec![] };
    set_icc_max(&mut backend, Plane::Core, 1000).unwrap();
    assert_eq!(backend.writes, vec![(0x150, 0x8000_0017_0000_0004)]);
}

#[test]
fn test_undervolt_writes_mailbox() {
    let mut backend = FixedBackend { value: 0, writes: vec![] };
    let features = FeatureSet { undervolt: true };
    let targets = vec![(Plane::Core, -50i64)];
    undervolt(&mut backend, &features, &targets).unwrap();
    assert_eq!(backend.writes, vec![(0x150, 0x8000_0011_F9A0_0000)]);
}

#[test]
fn test_undervolt_rejects_without_feature() {
    let mut backend = FixedBackend { value: 0, writes: vec![] };
    let features = FeatureSet { undervolt: false };
    let err = undervolt(&mut backend, &features, &vec![]).unwrap_err();
    assert_eq!(err, ControlError::Unsupported);
}

#[test]
fn test_undervolt_rejects_out_of_range_before_writing() {
    let mut backend = FixedBackend { value: 0, writes: vec![] };
    let features = FeatureSet { undervolt: true };
    let targets = vec![(Plane::Core, -50i64), (Plane::Gpu, 1001i64)];
    let err = undervolt(&mut backend, &features, &targets).unwrap_err();
    assert_eq!(err, ControlError::InvalidConfig);
    assert!(backend.writes.is_empty());
}

#[test]
fn test_decode_platform_info() {
    let p = decode_platform_info(0x2800, 0xA_0000);
    assert_eq!(p.max_non_turbo_ratio, 40);
    assert_eq!(p.rapl_time_unit_exp, 10);
}

#[test]
fn test_get_platform_info_reads() {
    let mut backend = FixedBackend { value: 0xA_2800, writes: vec![] };
    let p = get_platform_info(&mut backend).unwrap();
    assert_eq!(p.max_non_turbo_ratio, 40);
    assert_eq!(p.rapl_time_unit_exp, 10);
    let mut denied = DeniedBackend;
    let err = get_platform_info(&mut denied).unwrap_err();
    assert_eq!(err, ControlError::Fatal(FatalReason::SecureBoot));
}

#[test]
fn test_get_reg_values_catalog() {
    let mut backend = FixedBackend { value: 99, writes: vec![] };
    let values = get_reg_values(&mut backend).unwrap();
    assert_eq!(values.len(), 13);
    assert_eq!(values[0], (Register::PlatformInfo, 99));
    assert_eq!(values[1], (Register::OcMailbox, 99));
    assert_eq!(values[12], (Register::HwpRequest, 99));
}

#[test]
fn test_tick_applies_targets() {
    let mut c = Config::new();
    c.undervolt_targets.push(UndervoltTarget {
        plane: Plane::Core,
        ac_mv: -50,
        battery_mv: -105,
    });
    c.iccmax_targets.push(IccMaxTarget { plane: Plane::Core, ac_ma: 1000, battery_ma: 500 });
    let c = parse_config(c).unwrap();
    let features = FeatureSet { undervolt: true };
    let mut backend = FixedBackend { value: 0, writes: vec![] };
    tick(&mut backend, &c, &features, PowerSource::Ac).unwrap();
    assert_eq!(
        backend.writes,
        vec![
            (0x150, 0x8000_0011_F9A0_0000),
            (0x150, 0x8000_0017_0000_0004),
            (0x774, 0x20),
        ]
    );
    backend.writes.clear();
    tick(&mut backend, &c, &features, PowerSource::Battery).unwrap();
    // -105 mV encodes to round(-107.52) = -108 steps: field 0x794.
    assert_eq!(
        backend.writes,
        vec![
            (0x150, 0x8000_0011_F280_0000),
            (0x150, 0x8000_0017_0000_0002),
            (0x774, 0x80),
        ]
    );
}

#[test]
fn test_tick_fatal_on_denied_write() {
    let mut c = Config::new();
    c.iccmax_targets.push(IccMaxTarget { plane: Plane::Core, ac_ma: 1000, battery_ma: 500 });
    let c = parse_config(c).unwrap();
    let features = FeatureSet { undervolt: false };
    let mut backend = DeniedBackend;
    let err = tick(&mut backend, &c, &features, PowerSource::Ac).unwrap_err();
    assert_eq!(err, ControlError::Fatal(FatalReason::SecureBoot));
    assert!(fatal(&err));
}
