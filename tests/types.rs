use librazer::error::RazerError;
use librazer::types::{
    BatteryCare, Cluster, CpuBoost, FanMode, FanZone, GpuBoost, LightsAlwaysOn, MaxFanSpeedMode,
    PerfMode, ThermalZone,
};

#[test]
fn test_perf_mode_try_from() {
    assert_eq!(PerfMode::try_from(0).unwrap(), PerfMode::Balanced);
    assert_eq!(PerfMode::try_from(5).unwrap(), PerfMode::Silent);
    assert_eq!(PerfMode::try_from(4).unwrap(), PerfMode::Custom);
    assert!(PerfMode::try_from(99).is_err());
}

#[test]
fn test_fan_mode_try_from() {
    assert_eq!(FanMode::try_from(0).unwrap(), FanMode::Auto);
    assert_eq!(FanMode::try_from(1).unwrap(), FanMode::Manual);
    assert!(FanMode::try_from(2).is_err());
}

#[test]
fn test_cpu_boost_try_from() {
    assert_eq!(CpuBoost::try_from(0).unwrap(), CpuBoost::Low);
    assert_eq!(CpuBoost::try_from(1).unwrap(), CpuBoost::Medium);
    assert_eq!(CpuBoost::try_from(2).unwrap(), CpuBoost::High);
    assert_eq!(CpuBoost::try_from(3).unwrap(), CpuBoost::Boost);
    assert_eq!(CpuBoost::try_from(4).unwrap(), CpuBoost::Overclock);
    assert!(CpuBoost::try_from(5).is_err());
}

#[test]
fn test_gpu_boost_try_from() {
    assert_eq!(GpuBoost::try_from(0).unwrap(), GpuBoost::Low);
    assert_eq!(GpuBoost::try_from(1).unwrap(), GpuBoost::Medium);
    assert_eq!(GpuBoost::try_from(2).unwrap(), GpuBoost::High);
    assert!(GpuBoost::try_from(3).is_err());
}

#[test]
fn test_lights_always_on_try_from() {
    assert_eq!(
        LightsAlwaysOn::try_from(0).unwrap(),
        LightsAlwaysOn::Disable
    );
    assert_eq!(LightsAlwaysOn::try_from(3).unwrap(), LightsAlwaysOn::Enable);
    assert!(LightsAlwaysOn::try_from(1).is_err());
}

#[test]
fn test_battery_care_try_from() {
    assert_eq!(BatteryCare::try_from(0x50).unwrap(), BatteryCare::Disable);
    assert_eq!(BatteryCare::try_from(0xd0).unwrap(), BatteryCare::Enable);
    assert!(BatteryCare::try_from(0x00).is_err());
}

#[test]
fn test_max_fan_speed_mode_try_from() {
    assert_eq!(
        MaxFanSpeedMode::try_from(0x00).unwrap(),
        MaxFanSpeedMode::Disable
    );
    assert_eq!(
        MaxFanSpeedMode::try_from(0x02).unwrap(),
        MaxFanSpeedMode::Enable
    );
    assert!(MaxFanSpeedMode::try_from(0x01).is_err());
}

#[test]
fn wire_bytes_match_the_tables() {
    assert_eq!(PerfMode::Balanced.to_byte(), 0);
    assert_eq!(PerfMode::Silent.to_byte(), 5);
    assert_eq!(PerfMode::Custom.to_byte(), 4);
    assert_eq!(BatteryCare::Disable.to_byte(), 0x50);
    assert_eq!(BatteryCare::Enable.to_byte(), 0xd0);
    assert_eq!(LightsAlwaysOn::Enable.to_byte(), 0x03);
    assert_eq!(LightsAlwaysOn::Disable.to_byte(), 0x00);
    assert_eq!(MaxFanSpeedMode::Enable.to_byte(), 0x02);
    assert_eq!(CpuBoost::Overclock.to_byte(), 4);
    assert_eq!(GpuBoost::High.to_byte(), 2);
    assert_eq!(Cluster::Cpu.to_byte(), 1);
    assert_eq!(Cluster::Gpu.to_byte(), 2);
    assert_eq!(FanZone::Zone2.to_byte(), 2);
    assert_eq!(ThermalZone::Zone1.to_byte(), 1);
}

#[test]
fn every_byte_decodes_back_or_is_invalid() {
    for b in 0..=255u8 {
        match PerfMode::try_from(b) {
            Ok(m) => assert_eq!(m.to_byte(), b),
            Err(e) => assert_eq!(e, RazerError::InvalidValue { value: b, target: "PerfMode" }),
        }
        match CpuBoost::try_from(b) {
            Ok(m) => assert_eq!(m.to_byte(), b),
            Err(e) => assert_eq!(e, RazerError::InvalidValue { value: b, target: "CpuBoost" }),
        }
        match GpuBoost::try_from(b) {
            Ok(m) => assert_eq!(m.to_byte(), b),
            Err(e) => assert_eq!(e, RazerError::InvalidValue { value: b, target: "GpuBoost" }),
        }
        match FanMode::try_from(b) {
            Ok(m) => assert_eq!(m.to_byte(), b),
            Err(e) => assert_eq!(e, RazerError::InvalidValue { value: b, target: "FanMode" }),
        }
        match BatteryCare::try_from(b) {
            Ok(m) => assert_eq!(m.to_byte(), b),
            Err(e) => assert_eq!(e, RazerError::InvalidValue { value: b, target: "BatteryCare" }),
        }
        match LightsAlwaysOn::try_from(b) {
            Ok(m) => assert_eq!(m.to_byte(), b),
            Err(e) => assert_eq!(e, RazerError::InvalidValue { value: b, target: "LightsAlwaysOn" }),
        }
        match MaxFanSpeedMode::try_from(b) {
            Ok(m) => assert_eq!(m.to_byte(), b),
            Err(e) => assert_eq!(e, RazerError::InvalidValue { value: b, target: "MaxFanSpeedMode" }),
        }
    }
    assert_eq!(PerfMode::try_from(PerfMode::Silent.to_byte()).unwrap(), PerfMode::Silent);
    assert_eq!(BatteryCare::try_from(BatteryCare::Enable.to_byte()).unwrap(), BatteryCare::Enable);
}
