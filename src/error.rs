use vstd::prelude::*;

verus! {

/// Why a command refused to run: the device mode it requires does not hold,
/// or an argument is outside what the device accepts.
#[derive(Clone, Copy, Debug, PartialEq, Eq, Structural)]
pub enum Precondition {
    /// Manual fan control was asked for outside Balanced mode.
    ManualFanRequiresBalanced,
    /// The two thermal zones report different modes.
    ModesDisagree,
    /// Boost levels can only be changed in Custom mode with automatic fans.
    RequiresCustomAuto,
    /// A fan speed can only be set in Balanced mode with manual fans.
    RequiresBalancedManual,
    /// Max fan speed can only be changed in Custom mode.
    RequiresCustom,
    /// The fan mode can only be changed in Balanced mode.
    RequiresBalanced,
    /// A fan speed outside 2000..=5000 RPM.
    RpmOutOfRange,
}

/// Every way an operation of this library can fail.
#[derive(Clone, Debug, PartialEq, Eq)]
pub enum RazerError {
    NoDevicesFound,
    ModelDetectionFailed(String),
    InvalidModel(String),
    UnsupportedPlatform,
    UnsupportedModel { model: String, pids: Vec<u16> },
    DeviceOpenFailed { name: String, reason: String },
    DeviceNotFound,
    PermissionDenied,
    FeatureNotSupported(&'static str),
    PreconditionFailed(Precondition),
    ResponseMismatch,
    CommandNotSupported,
    DeviceBusy,
    CommandFailed,
    CommandTimeout,
    UnknownStatus(u8),
    InvalidValue { value: u8, target: &'static str },
    InvalidDataSize { expected: usize, actual: usize },
    Hid(String),
}

} // verus!
