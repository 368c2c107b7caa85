use rsthrottled::error::{fatal, ControlError, FatalReason};
use rsthrottled::port::{consolidate, readmsr_flat, writemsr, PortError, RegisterBackend};
use rsthrottled::probe::{get_undervolt, CapabilityTester, Feature, FeatureSet};
use rsthrottled::tables::{Plane, Register};

/// A simulated backend whose cores all answer from a fixed table.
struct FakeBackend {
    cores: Vec<u64>,
}

impl RegisterBackend for FakeBackend {
    fn core_count(&mut self) -> usize {
        self.cores.len()
    }

    fn read_core(&mut self, core: usize, _addr: u64) -> Result<u64, PortError> {
        Ok(self.cores[core])
    }

    fn write_reg(&mut self, _addr: u64, _value: u64) -> Result<(), PortError> {
        Ok(())
    }
}

/// A simulated backend that always fails with one error kind.
struct FailingBackend {
    kind: PortError,
}

impl RegisterBackend for FailingBackend {
    fn core_count(&mut self) -> usize {
        1
    }

    fn read_core(&mut self, _core: usize, _addr: u64) -> Result<u64, PortError> {
        Err(self.kind)
    }

    fn write_reg(&mut self, _addr: u64, _value: u64) -> Result<(), PortError> {
        Ok(())
    }
}

/// A simulated backend recording every write.
struct RecordingBackend {
    value: u64,
    writes: Vec<(u64, u64)>,
}

impl RegisterBackend for RecordingBackend {
    fn core_count(&mut self) -> usize {
        2
    }

    fn read_core(&mut self, _core: usize, _addr: u64) -> Result<u64, PortError> {
        Ok(self.value)
    }

    fn write_reg(&mut self, addr: u64, value: u64) -> Result<(), PortError> {
        self.writes.push((addr, value));
        Ok(())
    }
}

#[test]
fn test_read_agreeing_cores() {
    // Identical values on every core: that value, no warning owed.
    let mut backend = FakeBackend { cores: vec![7, 7, 7, 7] };
    let (read, values) = readmsr_flat(&mut backend, Register::PlatformInfo).unwrap();
    assert_eq!(read.value, 7);
    assert!(!read.divergent);
    assert_eq!(values, vec![7, 7, 7, 7]);
}

#[test]
fn test_read_divergent_cores() {
    // One disagreeing core: the first core's value wins, and exactly
    // one warning is owed for the whole read.
    let mut backend = FakeBackend { cores: vec![7, 8, 7] };
    let (read, values) = readmsr_flat(&mut backend, Register::PlatformInfo).unwrap();
    assert_eq!(read.value, 7);
    assert!(read.divergent);
    assert_eq!(values, vec![7, 8, 7]);
}

#[test]
fn test_consolidate_direct() {
    let agreeing = vec![42u64, 42, 42];
    let r = consolidate(&agreeing);
    assert_eq!(r.value, 42);
    assert!(!r.divergent);
    let divergent = vec![42u64, 42, 41];
    let r = consolidate(&divergent);
    assert_eq!(r.value, 42);
    assert!(r.divergent);
}

#[test]
fn test_read_no_cores() {
    let mut backend = FakeBackend { cores: vec![] };
    assert_eq!(
        readmsr_flat(&mut backend, Register::PlatformInfo),
        Err(PortError::Io)
    );
}

#[test]
fn test_writemsr_records() {
    let mut backend = RecordingBackend { value: 0, writes: vec![] };
    writemsr(&mut backend, Register::HwpRequest, 7).unwrap();
    assert_eq!(backend.writes, vec![(0x774, 7)]);
}

#[test]
fn test_probe_denied_excludes_feature() {
    // Permission denial while the probe section is active: the feature
    // is excluded from the set and probe returns normally.
    let mut backend = FailingBackend { kind: PortError::PermissionDenied };
    let mut tester = CapabilityTester::new();
    let admitted = tester.test_msr_rw_capabilities(&mut backend);
    assert!(!admitted);
    assert!(!tester.probing);
    assert!(!tester.features.contains(Feature::Undervolt));
}

#[test]
fn test_probe_success_admits_feature() {
    let mut backend = FakeBackend { cores: vec![0x1234_5678, 0x1234_5678] };
    let mut tester = CapabilityTester::new();
    let admitted = tester.test_msr_rw_capabilities(&mut backend);
    assert!(admitted);
    assert!(!tester.probing);
    assert!(tester.features.contains(Feature::Undervolt));
}

#[test]
fn test_steady_state_denied_is_fatal() {
    // The identical failure outside a probe section escalates: the
    // top-level handler treats it as process-aborting.
    let mut backend = FailingBackend { kind: PortError::PermissionDenied };
    let features = FeatureSet { undervolt: true };
    let err = get_undervolt(&features, None, false, false, &mut backend).unwrap_err();
    assert_eq!(err, ControlError::Fatal(FatalReason::SecureBoot));
    assert!(fatal(&err));
}

#[test]
fn test_steady_state_io_is_transient() {
    let mut backend = FailingBackend { kind: PortError::Io };
    let features = FeatureSet { undervolt: true };
    let err = get_undervolt(&features, None, false, false, &mut backend).unwrap_err();
    assert_eq!(err, ControlError::Transient);
    assert!(!fatal(&err));
}

#[test]
fn test_probe_mode_error_never_aborts() {
    let mut backend = FailingBackend { kind: PortError::PermissionDenied };
    let features = FeatureSet { undervolt: false };
    let err = get_undervolt(&features, None, false, true, &mut backend).unwrap_err();
    assert_eq!(err, ControlError::Unsupported);
    assert!(!fatal(&err));
}

#[test]
fn test_get_undervolt_requires_feature() {
    let mut backend = FakeBackend { cores: vec![0] };
    let features = FeatureSet { undervolt: false };
    let err = get_undervolt(&features, None, false, false, &mut backend).unwrap_err();
    assert_eq!(err, ControlError::Unsupported);
}

#[test]
fn test_get_undervolt_values() {
    // Every core answers with field 0x433 (-973 steps, -950 mV).
    let word = 0x433u64 << 21;
    let mut backend = FakeBackend { cores: vec![word, word] };
    let features = FeatureSet { undervolt: true };
    let raw = get_undervolt(&features, None, false, false, &mut backend).unwrap();
    assert_eq!(raw.len(), 5);
    assert_eq!(raw[0], (Plane::Core, word as i64));
    let converted = get_undervolt(&features, Some(Plane::Gpu), true, false, &mut backend).unwrap();
    assert_eq!(converted, vec![(Plane::Gpu, -950)]);
}
