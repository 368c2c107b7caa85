//! Process-lifetime read-only registries: the register catalog and the
//! voltage/current plane indices.
//!
//! The current-limit planes are a strict subset of the voltage planes;
//! the asymmetry is intentional and preserved here.

use vstd::prelude::*;

verus! {

/// A voltage or current domain of the processor, with its small
/// hardware index.
#[derive(Clone, Copy, Debug, PartialEq, Eq, Structural)]
pub enum Plane {
    Core,
    Gpu,
    Cache,
    Uncore,
    Analogio,
}

impl Plane {
    /// The hardware index packed into mailbox command words.
    pub open spec fn spec_index(self) -> u64 {
        match self {
            Plane::Core => 0,
            Plane::Gpu => 1,
            Plane::Cache => 2,
            Plane::Uncore => 3,
            Plane::Analogio => 4,
        }
    }

    /// Executable counterpart of [`Plane::spec_index`].
    pub fn index(self) -> (i: u64)
        ensures
            i == self.spec_index(),
    {
        match self {
            Plane::Core => 0,
            Plane::Gpu => 1,
            Plane::Cache => 2,
            Plane::Uncore => 3,
            Plane::Analogio => 4,
        }
    }

    /// Whether this plane also carries a current limit (only CORE, GPU
    /// and CACHE do; undervolting covers all five voltage planes).
    pub open spec fn spec_is_current_plane(self) -> bool {
        match self {
            Plane::Core | Plane::Gpu | Plane::Cache => true,
            Plane::Uncore | Plane::Analogio => false,
        }
    }

    /// Executable counterpart of [`Plane::spec_is_current_plane`].
    pub fn is_current_plane(self) -> (b: bool)
        ensures
            b == self.spec_is_current_plane(),
    {
        match self {
            Plane::Core | Plane::Gpu | Plane::Cache => true,
            Plane::Uncore | Plane::Analogio => false,
        }
    }

    /// The five voltage planes, in hardware-index order: undervolting
    /// applies to all of them.
    pub open spec fn spec_voltage_planes() -> Seq<Plane> {
        seq![Plane::Core, Plane::Gpu, Plane::Cache, Plane::Uncore, Plane::Analogio]
    }

    /// All voltage planes, in hardware-index order.
    pub fn voltage_planes() -> (v: Vec<Plane>)
        ensures
            v@ == Plane::spec_voltage_planes(),
    {
        let mut v: Vec<Plane> = Vec::new();
        v.push(Plane::Core);
        v.push(Plane::Gpu);
        v.push(Plane::Cache);
        v.push(Plane::Uncore);
        v.push(Plane::Analogio);
        proof {
            assert(v@ =~= Plane::spec_voltage_planes());
        }
        v
    }
}

/// A symbolic name of the register catalog.
#[derive(Clone, Copy, Debug, PartialEq, Eq, Structural)]
pub enum Register {
    PlatformInfo,
    OcMailbox,
    PerfStatus,
    ThermStatus,
    TemperatureTarget,
    PowerCtl,
    RaplPowerUnit,
    PkgPowerLimit,
    PkgEnergyStatus,
    DramEnergyStatus,
    Pp1EnergyStatus,
    ConfigTdpControl,
    HwpRequest,
}

impl Register {
    /// The register's numeric byte address; the address itself is the
    /// seek offset into a per-core register device node.
    pub open spec fn spec_addr(self) -> u64 {
        match self {
            Register::PlatformInfo => 0xCE,
            Register::OcMailbox => 0x150,
            Register::PerfStatus => 0x198,
            Register::ThermStatus => 0x19C,
            Register::TemperatureTarget => 0x1A2,
            Register::PowerCtl => 0x1FC,
            Register::RaplPowerUnit => 0x606,
            Register::PkgPowerLimit => 0x610,
            Register::PkgEnergyStatus => 0x611,
            Register::DramEnergyStatus => 0x619,
            Register::Pp1EnergyStatus => 0x641,
            Register::ConfigTdpControl => 0x64B,
            Register::HwpRequest => 0x774,
        }
    }

    /// Executable counterpart of [`Register::spec_addr`].
    pub fn addr(self) -> (a: u64)
        ensures
            a == self.spec_addr(),
    {
        match self {
            Register::PlatformInfo => 0xCE,
            Register::OcMailbox => 0x150,
            Register::PerfStatus => 0x198,
            Register::ThermStatus => 0x19C,
            Register::TemperatureTarget => 0x1A2,
            Register::PowerCtl => 0x1FC,
            Register::RaplPowerUnit => 0x606,
            Register::PkgPowerLimit => 0x610,
            Register::PkgEnergyStatus => 0x611,
            Register::DramEnergyStatus => 0x619,
            Register::Pp1EnergyStatus => 0x641,
            Register::ConfigTdpControl => 0x64B,
            Register::HwpRequest => 0x774,
        }
    }

    /// The whole catalog, in address order.
    pub fn all() -> (v: Vec<Register>)
        ensures
            v@ == Register::spec_all(),
    {
        let mut v: Vec<Register> = Vec::new();
        v.push(Register::PlatformInfo);
        v.push(Register::OcMailbox);
        v.push(Register::PerfStatus);
        v.push(Register::ThermStatus);
        v.push(Register::TemperatureTarget);
        v.push(Register::PowerCtl);
        v.push(Register::RaplPowerUnit);
        v.push(Register::PkgPowerLimit);
        v.push(Register::PkgEnergyStatus);
        v.push(Register::DramEnergyStatus);
        v.push(Register::Pp1EnergyStatus);
        v.push(Register::ConfigTdpControl);
        v.push(Register::HwpRequest);
        proof {
            assert(v@ =~= Register::spec_all());
        }
        v
    }

    /// The catalog contents, as [`Register::all`] returns them.
    pub open spec fn spec_all() -> Seq<Register> {
        seq![
            Register::PlatformInfo,
            Register::OcMailbox,
            Register::PerfStatus,
            Register::ThermStatus,
            Register::TemperatureTarget,
            Register::PowerCtl,
            Register::RaplPowerUnit,
            Register::PkgPowerLimit,
            Register::PkgEnergyStatus,
            Register::DramEnergyStatus,
            Register::Pp1EnergyStatus,
            Register::ConfigTdpControl,
            Register::HwpRequest,
        ]
    }
}

} // verus!
