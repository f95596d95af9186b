use crate::error::RazerError;
use vstd::prelude::*;

verus! {

/// Names of the decoded types, as `InvalidValue` reports them.
pub const BATTERY_CARE_NAME: &'static str = "BatteryCare";
pub const CPU_BOOST_NAME: &'static str = "CpuBoost";
pub const FAN_MODE_NAME: &'static str = "FanMode";
pub const GPU_BOOST_NAME: &'static str = "GpuBoost";
pub const LIGHTS_ALWAYS_ON_NAME: &'static str = "LightsAlwaysOn";
pub const LOGO_MODE_NAME: &'static str = "LogoMode";
pub const MAX_FAN_SPEED_MODE_NAME: &'static str = "MaxFanSpeedMode";
pub const PERF_MODE_NAME: &'static str = "PerfMode";

/// Selector of the processor cluster addressed by the boost commands.
#[derive(Clone, Copy, Debug, PartialEq, Eq, Structural)]
pub enum Cluster {
    Cpu,
    Gpu,
}

impl Cluster {
    pub open spec fn byte(self) -> u8 {
        match self {
            Cluster::Cpu => 0x01,
            Cluster::Gpu => 0x02,
        }
    }

    pub fn to_byte(self) -> (b: u8)
        ensures
            b == self.byte(),
    {
        match self {
            Cluster::Cpu => 0x01,
            Cluster::Gpu => 0x02,
        }
    }
}

/// One of the two fans.
#[derive(Clone, Copy, Debug, PartialEq, Eq, Structural)]
pub enum FanZone {
    Zone1,
    Zone2,
}

impl FanZone {
    pub open spec fn byte(self) -> u8 {
        match self {
            FanZone::Zone1 => 0x01,
            FanZone::Zone2 => 0x02,
        }
    }

    pub fn to_byte(self) -> (b: u8)
        ensures
            b == self.byte(),
    {
        match self {
            FanZone::Zone1 => 0x01,
            FanZone::Zone2 => 0x02,
        }
    }
}

/// One of the two thermal zones that performance-mode commands address.
#[derive(Clone, Copy, Debug, PartialEq, Eq, Structural)]
pub enum ThermalZone {
    Zone1,
    Zone2,
}

impl ThermalZone {
    pub open spec fn byte(self) -> u8 {
        match self {
            ThermalZone::Zone1 => 0x01,
            ThermalZone::Zone2 => 0x02,
        }
    }

    pub fn to_byte(self) -> (b: u8)
        ensures
            b == self.byte(),
    {
        match self {
            ThermalZone::Zone1 => 0x01,
            ThermalZone::Zone2 => 0x02,
        }
    }
}

/// Thermal performance mode; its wire bytes are 0, 5 and 4.
#[derive(Clone, Copy, Debug, PartialEq, Eq, Structural)]
pub enum PerfMode {
    Balanced,
    Silent,
    Custom,
}

impl PerfMode {
    pub open spec fn byte(self) -> u8 {
        match self {
            PerfMode::Balanced => 0,
            PerfMode::Silent => 5,
            PerfMode::Custom => 4,
        }
    }

    pub fn to_byte(self) -> (b: u8)
        ensures
            b == self.byte(),
    {
        match self {
            PerfMode::Balanced => 0,
            PerfMode::Silent => 5,
            PerfMode::Custom => 4,
        }
    }
}

impl PerfMode {
    /// The variant whose wire byte is `value`.
    pub fn try_from(value: u8) -> (r: Result<PerfMode, RazerError>)
        ensures
            r == PerfMode::decode(value),
    {
        match value {
            0 => Ok(PerfMode::Balanced),
            5 => Ok(PerfMode::Silent),
            4 => Ok(PerfMode::Custom),
            _ => Err(RazerError::InvalidValue { value, target: PERF_MODE_NAME }),
        }
    }
}

impl PerfMode {
    /// Decoding of a wire byte: the variant it names, else `InvalidValue`.
    pub open spec fn decode(value: u8) -> Result<PerfMode, RazerError> {
        if value == 0 {
            Ok(PerfMode::Balanced)
        } else if value == 5 {
            Ok(PerfMode::Silent)
        } else if value == 4 {
            Ok(PerfMode::Custom)
        } else {
            Err(RazerError::InvalidValue { value, target: PERF_MODE_NAME })
        }
    }
}

/// Whether the fans are held at their maximum speed.
#[derive(Clone, Copy, Debug, PartialEq, Eq, Structural)]
pub enum MaxFanSpeedMode {
    Enable,
    Disable,
}

impl MaxFanSpeedMode {
    pub open spec fn byte(self) -> u8 {
        match self {
            MaxFanSpeedMode::Enable => 0x02,
            MaxFanSpeedMode::Disable => 0x00,
        }
    }

    pub fn to_byte(self) -> (b: u8)
        ensures
            b == self.byte(),
    {
        match self {
            MaxFanSpeedMode::Enable => 0x02,
            MaxFanSpeedMode::Disable => 0x00,
        }
    }
}

impl MaxFanSpeedMode {
    /// The variant whose wire byte is `value`.
    pub fn try_from(value: u8) -> (r: Result<MaxFanSpeedMode, RazerError>)
        ensures
            r == MaxFanSpeedMode::decode(value),
    {
        match value {
            0x02 => Ok(MaxFanSpeedMode::Enable),
            0x00 => Ok(MaxFanSpeedMode::Disable),
            _ => Err(RazerError::InvalidValue { value, target: MAX_FAN_SPEED_MODE_NAME }),
        }
    }
}

impl MaxFanSpeedMode {
    /// Decoding of a wire byte: the variant it names, else `InvalidValue`.
    pub open spec fn decode(value: u8) -> Result<MaxFanSpeedMode, RazerError> {
        if value == 0x02 {
            Ok(MaxFanSpeedMode::Enable)
        } else if value == 0x00 {
            Ok(MaxFanSpeedMode::Disable)
        } else {
            Err(RazerError::InvalidValue { value, target: MAX_FAN_SPEED_MODE_NAME })
        }
    }
}

/// Automatic or manual fan control.
#[derive(Clone, Copy, Debug, PartialEq, Eq, Structural)]
pub enum FanMode {
    Auto,
    Manual,
}

impl FanMode {
    pub open spec fn byte(self) -> u8 {
        match self {
            FanMode::Auto => 0,
            FanMode::Manual => 1,
        }
    }

    pub fn to_byte(self) -> (b: u8)
        ensures
            b == self.byte(),
    {
        match self {
            FanMode::Auto => 0,
            FanMode::Manual => 1,
        }
    }
}

impl FanMode {
    /// The variant whose wire byte is `value`.
    pub fn try_from(value: u8) -> (r: Result<FanMode, RazerError>)
        ensures
            r == FanMode::decode(value),
    {
        match value {
            0 => Ok(FanMode::Auto),
            1 => Ok(FanMode::Manual),
            _ => Err(RazerError::InvalidValue { value, target: FAN_MODE_NAME }),
        }
    }
}

impl FanMode {
    /// Decoding of a wire byte: the variant it names, else `InvalidValue`.
    pub open spec fn decode(value: u8) -> Result<FanMode, RazerError> {
        if value == 0 {
            Ok(FanMode::Auto)
        } else if value == 1 {
            Ok(FanMode::Manual)
        } else {
            Err(RazerError::InvalidValue { value, target: FAN_MODE_NAME })
        }
    }
}

/// Processor boost level, settable in Custom mode.
#[derive(Clone, Copy, Debug, PartialEq, Eq, Structural)]
pub enum CpuBoost {
    Low,
    Medium,
    High,
    Boost,
    Overclock,
}

impl CpuBoost {
    pub open spec fn byte(self) -> u8 {
        match self {
            CpuBoost::Low => 0,
            CpuBoost::Medium => 1,
            CpuBoost::High => 2,
            CpuBoost::Boost => 3,
            CpuBoost::Overclock => 4,
        }
    }

    pub fn to_byte(self) -> (b: u8)
        ensures
            b == self.byte(),
    {
        match self {
            CpuBoost::Low => 0,
            CpuBoost::Medium => 1,
            CpuBoost::High => 2,
            CpuBoost::Boost => 3,
            CpuBoost::Overclock => 4,
        }
    }
}

impl CpuBoost {
    /// The variant whose wire byte is `value`.
    pub fn try_from(value: u8) -> (r: Result<CpuBoost, RazerError>)
        ensures
            r == CpuBoost::decode(value),
    {
        match value {
            0 => Ok(CpuBoost::Low),
            1 => Ok(CpuBoost::Medium),
            2 => Ok(CpuBoost::High),
            3 => Ok(CpuBoost::Boost),
            4 => Ok(CpuBoost::Overclock),
            _ => Err(RazerError::InvalidValue { value, target: CPU_BOOST_NAME }),
        }
    }
}

impl CpuBoost {
    /// Decoding of a wire byte: the variant it names, else `InvalidValue`.
    pub open spec fn decode(value: u8) -> Result<CpuBoost, RazerError> {
        if value == 0 {
            Ok(CpuBoost::Low)
        } else if value == 1 {
            Ok(CpuBoost::Medium)
        } else if value == 2 {
            Ok(CpuBoost::High)
        } else if value == 3 {
            Ok(CpuBoost::Boost)
        } else if value == 4 {
            Ok(CpuBoost::Overclock)
        } else {
            Err(RazerError::InvalidValue { value, target: CPU_BOOST_NAME })
        }
    }
}

/// Graphics boost level, settable in Custom mode.
#[derive(Clone, Copy, Debug, PartialEq, Eq, Structural)]
pub enum GpuBoost {
    Low,
    Medium,
    High,
}

impl GpuBoost {
    pub open spec fn byte(self) -> u8 {
        match self {
            GpuBoost::Low => 0,
            GpuBoost::Medium => 1,
            GpuBoost::High => 2,
        }
    }

    pub fn to_byte(self) -> (b: u8)
        ensures
            b == self.byte(),
    {
        match self {
            GpuBoost::Low => 0,
            GpuBoost::Medium => 1,
            GpuBoost::High => 2,
        }
    }
}

impl GpuBoost {
    /// The variant whose wire byte is `value`.
    pub fn try_from(value: u8) -> (r: Result<GpuBoost, RazerError>)
        ensures
            r == GpuBoost::decode(value),
    {
        match value {
            0 => Ok(GpuBoost::Low),
            1 => Ok(GpuBoost::Medium),
            2 => Ok(GpuBoost::High),
            _ => Err(RazerError::InvalidValue { value, target: GPU_BOOST_NAME }),
        }
    }
}

impl GpuBoost {
    /// Decoding of a wire byte: the variant it names, else `InvalidValue`.
    pub open spec fn decode(value: u8) -> Result<GpuBoost, RazerError> {
        if value == 0 {
            Ok(GpuBoost::Low)
        } else if value == 1 {
            Ok(GpuBoost::Medium)
        } else if value == 2 {
            Ok(GpuBoost::High)
        } else {
            Err(RazerError::InvalidValue { value, target: GPU_BOOST_NAME })
        }
    }
}

/// Whether the lights stay on while the lid is closed.
#[derive(Clone, Copy, Debug, PartialEq, Eq, Structural)]
pub enum LightsAlwaysOn {
    Enable,
    Disable,
}

impl LightsAlwaysOn {
    pub open spec fn byte(self) -> u8 {
        match self {
            LightsAlwaysOn::Enable => 0x03,
            LightsAlwaysOn::Disable => 0x00,
        }
    }

    pub fn to_byte(self) -> (b: u8)
        ensures
            b == self.byte(),
    {
        match self {
            LightsAlwaysOn::Enable => 0x03,
            LightsAlwaysOn::Disable => 0x00,
        }
    }
}

impl LightsAlwaysOn {
    /// The variant whose wire byte is `value`.
    pub fn try_from(value: u8) -> (r: Result<LightsAlwaysOn, RazerError>)
        ensures
            r == LightsAlwaysOn::decode(value),
    {
        match value {
            0x03 => Ok(LightsAlwaysOn::Enable),
            0x00 => Ok(LightsAlwaysOn::Disable),
            _ => Err(RazerError::InvalidValue { value, target: LIGHTS_ALWAYS_ON_NAME }),
        }
    }
}

impl LightsAlwaysOn {
    /// Decoding of a wire byte: the variant it names, else `InvalidValue`.
    pub open spec fn decode(value: u8) -> Result<LightsAlwaysOn, RazerError> {
        if value == 0x03 {
            Ok(LightsAlwaysOn::Enable)
        } else if value == 0x00 {
            Ok(LightsAlwaysOn::Disable)
        } else {
            Err(RazerError::InvalidValue { value, target: LIGHTS_ALWAYS_ON_NAME })
        }
    }
}

/// Whether charging stops early to spare the battery.
#[derive(Clone, Copy, Debug, PartialEq, Eq, Structural)]
pub enum BatteryCare {
    Disable,
    Enable,
}

impl BatteryCare {
    pub open spec fn byte(self) -> u8 {
        match self {
            BatteryCare::Disable => 0x50,
            BatteryCare::Enable => 0xd0,
        }
    }

    pub fn to_byte(self) -> (b: u8)
        ensures
            b == self.byte(),
    {
        match self {
            BatteryCare::Disable => 0x50,
            BatteryCare::Enable => 0xd0,
        }
    }
}

impl BatteryCare {
    /// The variant whose wire byte is `value`.
    pub fn try_from(value: u8) -> (r: Result<BatteryCare, RazerError>)
        ensures
            r == BatteryCare::decode(value),
    {
        match value {
            0x50 => Ok(BatteryCare::Disable),
            0xd0 => Ok(BatteryCare::Enable),
            _ => Err(RazerError::InvalidValue { value, target: BATTERY_CARE_NAME }),
        }
    }
}

impl BatteryCare {
    /// Decoding of a wire byte: the variant it names, else `InvalidValue`.
    pub open spec fn decode(value: u8) -> Result<BatteryCare, RazerError> {
        if value == 0x50 {
            Ok(BatteryCare::Disable)
        } else if value == 0xd0 {
            Ok(BatteryCare::Enable)
        } else {
            Err(RazerError::InvalidValue { value, target: BATTERY_CARE_NAME })
        }
    }
}

/// The lid logo as callers see it: one setting carried by two device
/// commands, a power switch and a pattern selector.
#[derive(Clone, Copy, Debug, PartialEq, Eq, Structural)]
pub enum LogoMode {
    Off,
    Breathing,
    Static,
}

/// Decoding the byte of a `PerfMode` gives it back, and every byte that
/// names no variant is refused as an invalid value.
pub proof fn lemma_perf_mode_bytes(mode: PerfMode, value: u8)
    ensures
        PerfMode::decode(mode.byte()) == Ok::<PerfMode, RazerError>(mode),
        (forall|m: PerfMode| m.byte() != value) ==> PerfMode::decode(value) == Err::<PerfMode, RazerError>(
            RazerError::InvalidValue { value, target: PERF_MODE_NAME },
        ),
{
    assert(PerfMode::Balanced.byte() == 0);
    assert(PerfMode::Silent.byte() == 5);
    assert(PerfMode::Custom.byte() == 4);
}

/// Decoding the byte of a `MaxFanSpeedMode` gives it back, and every byte that
/// names no variant is refused as an invalid value.
pub proof fn lemma_max_fan_speed_mode_bytes(mode: MaxFanSpeedMode, value: u8)
    ensures
        MaxFanSpeedMode::decode(mode.byte()) == Ok::<MaxFanSpeedMode, RazerError>(mode),
        (forall|m: MaxFanSpeedMode| m.byte() != value) ==> MaxFanSpeedMode::decode(value) == Err::<MaxFanSpeedMode, RazerError>(
            RazerError::InvalidValue { value, target: MAX_FAN_SPEED_MODE_NAME },
        ),
{
    assert(MaxFanSpeedMode::Enable.byte() == 0x02);
    assert(MaxFanSpeedMode::Disable.byte() == 0x00);
}

/// Decoding the byte of a `FanMode` gives it back, and every byte that
/// names no variant is refused as an invalid value.
pub proof fn lemma_fan_mode_bytes(mode: FanMode, value: u8)
    ensures
        FanMode::decode(mode.byte()) == Ok::<FanMode, RazerError>(mode),
        (forall|m: FanMode| m.byte() != value) ==> FanMode::decode(value) == Err::<FanMode, RazerError>(
            RazerError::InvalidValue { value, target: FAN_MODE_NAME },
        ),
{
    assert(FanMode::Auto.byte() == 0);
    assert(FanMode::Manual.byte() == 1);
}

/// Decoding the byte of a `CpuBoost` gives it back, and every byte that
/// names no variant is refused as an invalid value.
pub proof fn lemma_cpu_boost_bytes(mode: CpuBoost, value: u8)
    ensures
        CpuBoost::decode(mode.byte()) == Ok::<CpuBoost, RazerError>(mode),
        (forall|m: CpuBoost| m.byte() != value) ==> CpuBoost::decode(value) == Err::<CpuBoost, RazerError>(
            RazerError::InvalidValue { value, target: CPU_BOOST_NAME },
        ),
{
    assert(CpuBoost::Low.byte() == 0);
    assert(CpuBoost::Medium.byte() == 1);
    assert(CpuBoost::High.byte() == 2);
    assert(CpuBoost::Boost.byte() == 3);
    assert(CpuBoost::Overclock.byte() == 4);
}

/// Decoding the byte of a `GpuBoost` gives it back, and every byte that
/// names no variant is refused as an invalid value.
pub proof fn lemma_gpu_boost_bytes(mode: GpuBoost, value: u8)
    ensures
        GpuBoost::decode(mode.byte()) == Ok::<GpuBoost, RazerError>(mode),
        (forall|m: GpuBoost| m.byte() != value) ==> GpuBoost::decode(value) == Err::<GpuBoost, RazerError>(
            RazerError::InvalidValue { value, target: GPU_BOOST_NAME },
        ),
{
    assert(GpuBoost::Low.byte() == 0);
    assert(GpuBoost::Medium.byte() == 1);
    assert(GpuBoost::High.byte() == 2);
}

/// Decoding the byte of a `LightsAlwaysOn` gives it back, and every byte that
/// names no variant is refused as an invalid value.
pub proof fn lemma_lights_always_on_bytes(mode: LightsAlwaysOn, value: u8)
    ensures
        LightsAlwaysOn::decode(mode.byte()) == Ok::<LightsAlwaysOn, RazerError>(mode),
        (forall|m: LightsAlwaysOn| m.byte() != value) ==> LightsAlwaysOn::decode(value) == Err::<LightsAlwaysOn, RazerError>(
            RazerError::InvalidValue { value, target: LIGHTS_ALWAYS_ON_NAME },
        ),
{
    assert(LightsAlwaysOn::Enable.byte() == 0x03);
    assert(LightsAlwaysOn::Disable.byte() == 0x00);
}

/// Decoding the byte of a `BatteryCare` gives it back, and every byte that
/// names no variant is refused as an invalid value.
pub proof fn lemma_battery_care_bytes(mode: BatteryCare, value: u8)
    ensures
        BatteryCare::decode(mode.byte()) == Ok::<BatteryCare, RazerError>(mode),
        (forall|m: BatteryCare| m.byte() != value) ==> BatteryCare::decode(value) == Err::<BatteryCare, RazerError>(
            RazerError::InvalidValue { value, target: BATTERY_CARE_NAME },
        ),
{
    assert(BatteryCare::Disable.byte() == 0x50);
    assert(BatteryCare::Enable.byte() == 0xd0);
}

} // verus!
