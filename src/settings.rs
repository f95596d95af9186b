//! Settings as the facade reads and writes them, and the state snapshot.
use crate::types::{
    BatteryCare, CpuBoost, FanMode, GpuBoost, LightsAlwaysOn, LogoMode, MaxFanSpeedMode, PerfMode,
};
use crate::feature::{BATTERYCARE, FAN, KBDBACKLIGHT, LIDLOGO, LIGHTSALWAYSON, PERF};
use vstd::prelude::*;

verus! {

/// A setting that can be read on its own.
#[derive(Clone, Copy, Debug, PartialEq, Eq, Structural)]
pub enum Setting {
    PerfMode,
    CpuBoost,
    GpuBoost,
    FanMode,
    MaxFanSpeed,
    KeyboardBrightness,
    LogoMode,
    BatteryCare,
    LightsAlwaysOn,
}

impl Setting {
    /// The capability a model must declare for this setting.
    pub open spec fn feature(self) -> &'static str {
        match self {
            Setting::PerfMode | Setting::CpuBoost | Setting::GpuBoost => PERF,
            Setting::FanMode | Setting::MaxFanSpeed => FAN,
            Setting::KeyboardBrightness => KBDBACKLIGHT,
            Setting::LogoMode => LIDLOGO,
            Setting::BatteryCare => BATTERYCARE,
            Setting::LightsAlwaysOn => LIGHTSALWAYSON,
        }
    }

    /// The capability a model must declare for this setting.
    pub fn tag(self) -> (r: &'static str)
        ensures
            r == self.feature(),
    {
        match self {
            Setting::PerfMode | Setting::CpuBoost | Setting::GpuBoost => PERF,
            Setting::FanMode | Setting::MaxFanSpeed => FAN,
            Setting::KeyboardBrightness => KBDBACKLIGHT,
            Setting::LogoMode => LIDLOGO,
            Setting::BatteryCare => BATTERYCARE,
            Setting::LightsAlwaysOn => LIGHTSALWAYSON,
        }
    }
}

/// The value of a setting, read back or to be applied.
#[derive(Clone, Copy, Debug, PartialEq, Eq, Structural)]
pub enum SettingValue {
    PerfMode { mode: PerfMode, fan_mode: FanMode },
    CpuBoost(CpuBoost),
    GpuBoost(GpuBoost),
    Fan { mode: FanMode, rpm: Option<u16> },
    MaxFanSpeed(MaxFanSpeedMode),
    KeyboardBrightness(u8),
    LogoMode(LogoMode),
    BatteryCare(BatteryCare),
    LightsAlwaysOn(LightsAlwaysOn),
}

impl SettingValue {
    /// The capability a model must declare to apply this value.
    pub open spec fn feature(self) -> &'static str {
        match self {
            SettingValue::PerfMode { .. } | SettingValue::CpuBoost(_) | SettingValue::GpuBoost(
                _,
            ) => PERF,
            SettingValue::Fan { .. } | SettingValue::MaxFanSpeed(_) => FAN,
            SettingValue::KeyboardBrightness(_) => KBDBACKLIGHT,
            SettingValue::LogoMode(_) => LIDLOGO,
            SettingValue::BatteryCare(_) => BATTERYCARE,
            SettingValue::LightsAlwaysOn(_) => LIGHTSALWAYSON,
        }
    }

    /// The capability a model must declare to apply this value.
    pub fn tag(&self) -> (r: &'static str)
        ensures
            r == self.feature(),
    {
        match self {
            SettingValue::PerfMode { .. } | SettingValue::CpuBoost(_) | SettingValue::GpuBoost(
                _,
            ) => PERF,
            SettingValue::Fan { .. } | SettingValue::MaxFanSpeed(_) => FAN,
            SettingValue::KeyboardBrightness(_) => KBDBACKLIGHT,
            SettingValue::LogoMode(_) => LIDLOGO,
            SettingValue::BatteryCare(_) => BATTERYCARE,
            SettingValue::LightsAlwaysOn(_) => LIGHTSALWAYSON,
        }
    }
}

/// A snapshot of the device's settings; a setting is absent when the model
/// lacks it or its read failed.
#[derive(Clone, Copy, Debug, PartialEq, Eq, Structural)]
pub struct DeviceState {
    pub perf_mode: Option<PerfMode>,
    pub fan_mode: Option<FanMode>,
    pub cpu_boost: Option<CpuBoost>,
    pub gpu_boost: Option<GpuBoost>,
    pub fan_rpm: Option<u16>,
    pub max_fan_speed: Option<MaxFanSpeedMode>,
    pub keyboard_brightness: Option<u8>,
    pub logo_mode: Option<LogoMode>,
    pub battery_care: Option<BatteryCare>,
    pub lights_always_on: Option<LightsAlwaysOn>,
}

impl DeviceState {
    pub open spec fn empty() -> DeviceState {
        DeviceState {
            perf_mode: None,
            fan_mode: None,
            cpu_boost: None,
            gpu_boost: None,
            fan_rpm: None,
            max_fan_speed: None,
            keyboard_brightness: None,
            logo_mode: None,
            battery_care: None,
            lights_always_on: None,
        }
    }
}

impl Default for DeviceState {
    fn default() -> (r: DeviceState)
        ensures
            r == DeviceState::empty(),
    {
        DeviceState {
            perf_mode: None,
            fan_mode: None,
            cpu_boost: None,
            gpu_boost: None,
            fan_rpm: None,
            max_fan_speed: None,
            keyboard_brightness: None,
            logo_mode: None,
            battery_care: None,
            lights_always_on: None,
        }
    }
}

/// One read of a state snapshot: a setting, or the speed of fan 1.
#[derive(Clone, Copy, Debug, PartialEq, Eq, Structural)]
pub enum Reading {
    Setting(Setting),
    FanRpm,
}

/// The next move of a state read: a reading to take, or the snapshot.
#[derive(Clone, Copy, Debug)]
pub enum StateStep {
    Read(Reading),
    Done(DeviceState),
}

} // verus!
