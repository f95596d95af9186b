//! The device facade: one bound model, feature-gated reads and writes of
//! its settings, and the state snapshot that reads what it can.
use crate::command::{
    cpu_boost_turn, echo_turn, get_battery_care, get_battery_care_turn, get_cpu_boost,
    get_fan_rpm_from, get_fan_rpm_turn, get_gpu_boost, get_keyboard_brightness,
    get_keyboard_turn, get_lights_always_on, get_lights_turn, get_logo_mode, get_logo_turn,
    get_max_fan_speed_mode, get_max_fan_speed_turn, get_perf_mode_from, gpu_boost_turn,
    perf_turn, seqs, set_battery_care, set_boost_turn, set_cpu_boost, set_fan_mode_from,
    set_fan_mode_turn, set_fan_rpm_from, set_fan_rpm_turn, set_gpu_boost,
    set_keyboard_brightness, set_lights_always_on, set_logo_mode, set_logo_turn,
    set_max_fan_speed_mode, set_max_fan_speed_turn, set_modes_turn, set_perf_mode, Exchange,
    Turn, SET_BATTERY_CARE, SET_KBD_BRIGHTNESS, SET_LIGHTS_ALWAYS_ON,
};
use crate::descriptor::{catalog, find_by_pid, pid_lookup, Descriptor};
use crate::error::RazerError;
use crate::feature::{contains, BATTERYCARE, FAN, KBDBACKLIGHT, LIDLOGO, LIGHTSALWAYSON, PERF};
use crate::settings::{DeviceState, Reading, Setting, SettingValue, StateStep};
use crate::types::{Cluster, FanMode, FanZone, PerfMode};
use vstd::prelude::*;
use vstd::string::*;

verus! {

/// `t` with its successful result passed through `f`.
pub open spec fn map_turn<T, U>(t: Turn<T>, f: spec_fn(T) -> U) -> Turn<U> {
    match t {
        Turn::Send(c, a) => Turn::Send(c, a),
        Turn::Done(Ok(v), n) => Turn::Done(Ok(f(v)), n),
        Turn::Done(Err(e), n) => Turn::Done(Err(e), n),
    }
}

/// Refusal of a feature the model lacks, before any exchange.
pub open spec fn unsupported<T>(tag: &'static str) -> Turn<T> {
    Turn::Done(Err(RazerError::FeatureNotSupported(tag)), 0)
}

/// The fan setting: the modes are read; with manual fans, the speed of fan
/// 1 is read as well.
pub open spec fn fan_setting_turn(h: Seq<Seq<u8>>) -> Turn<SettingValue> {
    match perf_turn(h, 0) {
        Turn::Send(c, a) => Turn::Send(c, a),
        Turn::Done(Err(e), n) => Turn::Done(Err(e), n),
        Turn::Done(Ok(m), n) => if m.1 == FanMode::Manual {
            map_turn(
                get_fan_rpm_turn(h, n, FanZone::Zone1),
                |r: u16| SettingValue::Fan { mode: FanMode::Manual, rpm: Some(r) },
            )
        } else {
            Turn::Done(Ok(SettingValue::Fan { mode: m.1, rpm: None }), n)
        },
    }
}

/// The last answer given to reading `r` in `plan`, if any.
pub open spec fn lookup(plan: Seq<Reading>, got: Seq<Option<SettingValue>>, r: Reading) -> Option<
    SettingValue,
>
    decreases plan.len(),
{
    if plan.len() == 0 {
        None
    } else if plan.last() == r {
        got[plan.len() - 1]
    } else {
        lookup(plan.drop_last(), got, r)
    }
}

/// The snapshot that the answers `got` to the readings of `plan` give.
pub open spec fn state_of(plan: Seq<Reading>, got: Seq<Option<SettingValue>>) -> DeviceState {
    DeviceState {
        perf_mode: match lookup(plan, got, Reading::Setting(Setting::PerfMode)) {
            Some(SettingValue::PerfMode { mode, fan_mode }) => Some(mode),
            _ => None,
        },
        fan_mode: match lookup(plan, got, Reading::Setting(Setting::PerfMode)) {
            Some(SettingValue::PerfMode { mode, fan_mode }) => Some(fan_mode),
            _ => None,
        },
        cpu_boost: match lookup(plan, got, Reading::Setting(Setting::CpuBoost)) {
            Some(SettingValue::CpuBoost(b)) => Some(b),
            _ => None,
        },
        gpu_boost: match lookup(plan, got, Reading::Setting(Setting::GpuBoost)) {
            Some(SettingValue::GpuBoost(b)) => Some(b),
            _ => None,
        },
        fan_rpm: match lookup(plan, got, Reading::FanRpm) {
            Some(SettingValue::Fan { mode, rpm: Some(r) }) => Some(r),
            _ => None,
        },
        max_fan_speed: match lookup(plan, got, Reading::Setting(Setting::MaxFanSpeed)) {
            Some(SettingValue::MaxFanSpeed(m)) => Some(m),
            _ => None,
        },
        keyboard_brightness: match lookup(plan, got, Reading::Setting(Setting::KeyboardBrightness)) {
            Some(SettingValue::KeyboardBrightness(b)) => Some(b),
            _ => None,
        },
        logo_mode: match lookup(plan, got, Reading::Setting(Setting::LogoMode)) {
            Some(SettingValue::LogoMode(m)) => Some(m),
            _ => None,
        },
        battery_care: match lookup(plan, got, Reading::Setting(Setting::BatteryCare)) {
            Some(SettingValue::BatteryCare(c)) => Some(c),
            _ => None,
        },
        lights_always_on: match lookup(plan, got, Reading::Setting(Setting::LightsAlwaysOn)) {
            Some(SettingValue::LightsAlwaysOn(l)) => Some(l),
            _ => None,
        },
    }
}

/// What `str::to_lowercase` returns for `s`.
pub uninterp spec fn lower_of(s: Seq<char>) -> Seq<char>;

/// Relies on str::to_lowercase: the lowercase form of `s`, which depends on
/// the characters of `s` alone.
#[verifier::external_body]
fn lowercase(s: &str) -> (r: String)
    ensures
        r@ == lower_of(s@),
{
    s.to_lowercase()
}

/// `pattern` occurs somewhere in `s`.
pub open spec fn has_substring(s: Seq<char>, pattern: Seq<char>) -> bool {
    exists|i: int|
        0 <= i && i + pattern.len() <= s.len() && #[trigger] s.subrange(i, i + pattern.len())
            == pattern
}

/// Whether `pattern` occurs in `s`.
pub fn contains_str(s: &str, pattern: &str) -> (r: bool)
    ensures
        r == has_substring(s@, pattern@),
{
    let n = s.unicode_len();
    let m = pattern.unicode_len();
    if m > n {
        return false;
    }
    let mut i: usize = 0;
    loop
        invariant
            n == s@.len(),
            m == pattern@.len(),
            m <= n,
            i <= n - m,
            forall|j: int| 0 <= j < i ==> #[trigger] s@.subrange(j, j + m) != pattern@,
        decreases n - m - i,
    {
        if crate::feature::str_equal(s.substring_char(i, i + m), pattern) {
            return true;
        }
        if i == n - m {
            return false;
        }
        i = i + 1;
    }
}

/// What the lowercase text of a failed detection settles: an invalid
/// argument means no usable device; a refused access means missing
/// permissions; any other text settles nothing.
pub open spec fn text_verdict(lowered: Seq<char>) -> Option<RazerError> {
    if has_substring(lowered, "einval"@) || has_substring(lowered, "invalid argument"@) {
        Some(RazerError::DeviceNotFound)
    } else if has_substring(lowered, "permission"@) || has_substring(lowered, "access denied"@)
        || has_substring(lowered, "operation not permitted"@) {
        Some(RazerError::PermissionDenied)
    } else {
        None
    }
}

/// Classifies a failed detection from the lowercase text of its error.
pub fn classify_failure(lowered: &str) -> (r: Option<RazerError>)
    ensures
        r == text_verdict(lowered@),
{
    if contains_str(lowered, "einval") || contains_str(lowered, "invalid argument") {
        Some(RazerError::DeviceNotFound)
    } else if contains_str(lowered, "permission") || contains_str(lowered, "access denied")
        || contains_str(lowered, "operation not permitted") {
        Some(RazerError::PermissionDenied)
    } else {
        None
    }
}

/// The next move of detection.
#[derive(Clone, Debug)]
pub enum DetectStep {
    /// The device is bound.
    Bound(BladeDevice),
    /// Detection failed with this error.
    Fail(RazerError),
    /// The failure text settles nothing: look whether a Razer device shows
    /// on the USB bus.
    CheckBus,
}

/// A failed detection: the text decides if it can; otherwise a device on
/// the bus that could not be opened means missing permissions, and no
/// device means none is connected.
pub open spec fn failure_step(lowered: Seq<char>, razer_present: Option<bool>) -> DetectStep {
    match text_verdict(lowered) {
        Some(e) => DetectStep::Fail(e),
        None => match razer_present {
            None => DetectStep::CheckBus,
            Some(true) => DetectStep::Fail(RazerError::PermissionDenied),
            Some(false) => DetectStep::Fail(RazerError::DeviceNotFound),
        },
    }
}

/// The next move of detection with a remembered product id.
#[derive(Clone, Debug)]
pub enum CachedDetect {
    /// Open the cached model directly.
    TryOpen(Descriptor),
    /// Bind this model; `remember` says whether to write it to the cache.
    Bind { descriptor: Descriptor, remember: bool },
    /// Run full detection.
    FullDetect,
    /// Detection failed with this error.
    Fail(RazerError),
}

/// The catalog holds an entry with product id `pid`.
pub open spec fn pid_known(pid: u16) -> bool {
    exists|j: int| 0 <= j < catalog().len() && #[trigger] catalog()[j].pid == pid
}

/// The boost readings: both, in Custom mode only.
pub open spec fn boost_readings(first: Option<SettingValue>) -> Seq<Reading> {
    match first {
        Some(SettingValue::PerfMode { mode, fan_mode }) => if mode == PerfMode::Custom {
            seq![Reading::Setting(Setting::CpuBoost), Reading::Setting(Setting::GpuBoost)]
        } else {
            Seq::empty()
        },
        _ => Seq::empty(),
    }
}

/// The fan-speed reading, with manual fans only.
pub open spec fn fan_readings(first: Option<SettingValue>) -> Seq<Reading> {
    match first {
        Some(SettingValue::PerfMode { mode, fan_mode }) => if fan_mode == FanMode::Manual {
            seq![Reading::FanRpm]
        } else {
            Seq::empty()
        },
        _ => Seq::empty(),
    }
}

/// A supported laptop bound by detection.
#[derive(Clone, Copy, Debug)]
pub struct BladeDevice {
    pub info: Descriptor,
}

impl BladeDevice {
    /// The device for a detection outcome. A failure is reported as
    /// `DeviceNotFound` or `PermissionDenied`, from the text of the failure
    /// (`message`) and whether a Razer device shows on the USB bus.
    pub fn detect(found: Result<Descriptor, RazerError>, message: &str, razer_present: Option<
        bool,
    >) -> (r: DetectStep)
        ensures
            found is Ok ==> r == DetectStep::Bound(BladeDevice { info: found->Ok_0 }),
            found is Err ==> r == failure_step(lower_of(message@), razer_present),
    {
        match found {
            Ok(info) => DetectStep::Bound(BladeDevice { info }),
            Err(_) => {
                let lowered = lowercase(message);
                match classify_failure(lowered.as_str()) {
                    Some(e) => DetectStep::Fail(e),
                    None => match razer_present {
                        None => DetectStep::CheckBus,
                        Some(true) => DetectStep::Fail(RazerError::PermissionDenied),
                        Some(false) => DetectStep::Fail(RazerError::DeviceNotFound),
                    },
                }
            },
        }
    }

    /// Detection with a remembered product id (`cached_pid`). A product id
    /// the catalog knows is opened directly first (`cached_open` says how
    /// that went); when it opens, the device is bound as it is. Without a
    /// usable cache, or when the open failed, full detection runs
    /// (`detected` is its outcome), and a device found that way is bound
    /// and written back to the cache.
    pub fn detect_with_cache(
        cached_pid: Option<u16>,
        cached_open: Option<bool>,
        detected: Option<Result<Descriptor, RazerError>>,
    ) -> (r: CachedDetect)
        ensures
            ({
                let known = cached_pid is Some && pid_known(cached_pid->Some_0);
                let reuse = known && cached_open == Some(true);
                let try_first = known && cached_open is None && detected is None;
                &&& reuse ==> r is Bind && !r->Bind_remember && pid_lookup(
                    cached_pid->Some_0,
                    Some(r->Bind_descriptor),
                )
                &&& try_first ==> r is TryOpen && pid_lookup(
                    cached_pid->Some_0,
                    Some(r->TryOpen_0),
                )
                &&& !reuse && !try_first ==> match detected {
                    None => r is FullDetect,
                    Some(Ok(d)) => r == CachedDetect::Bind { descriptor: d, remember: true },
                    Some(Err(e)) => r == CachedDetect::Fail(e),
                }
            }),
    {
        let cached = match cached_pid {
            Some(pid) => find_by_pid(pid),
            None => None,
        };
        if let Some(d) = cached {
            match cached_open {
                Some(true) => {
                    return CachedDetect::Bind { descriptor: d, remember: false };
                },
                None => {
                    if detected.is_none() {
                        return CachedDetect::TryOpen(d);
                    }
                },
                Some(false) => {},
            }
        }
        match detected {
            None => CachedDetect::FullDetect,
            Some(Ok(d)) => CachedDetect::Bind { descriptor: d, remember: true },
            Some(Err(e)) => CachedDetect::Fail(e),
        }
    }

    /// The model declares the capability `tag`.
    pub open spec fn has(&self, tag: Seq<char>) -> bool {
        self.info@.features.contains(tag)
    }

    pub fn name(&self) -> (r: &'static str)
        ensures
            r == self.info.name,
    {
        self.info.name
    }

    pub fn model(&self) -> (r: &'static str)
        ensures
            r == self.info.model_number_prefix,
    {
        self.info.model_number_prefix
    }

    pub fn pid(&self) -> (r: u16)
        ensures
            r == self.info.pid,
    {
        self.info.pid
    }

    pub fn features(&self) -> (r: &'static [&'static str])
        ensures
            r == self.info.features,
    {
        self.info.features
    }

    /// Whether the model declares the capability `feature`.
    pub fn supports(&self, feature: &str) -> (r: bool)
        ensures
            r == self.has(feature@),
    {
        let found = contains(self.info.features, feature);
        proof {
            let tags = self.info.features@.map_values(|t: &'static str| t@);
            if found {
                let i = choose|i: int|
                    0 <= i < self.info.features@.len() && self.info.features@[i]@ == feature@;
                assert(tags[i] == feature@);
            } else if tags.contains(feature@) {
                let i = choose|i: int| 0 <= i < tags.len() && tags[i] == feature@;
                assert(self.info.features@[i]@ == feature@);
            }
        }
        found
    }

    /// Reading one setting: a capability the model lacks is refused before
    /// any exchange.
    pub open spec fn get_setting_turn(&self, setting: Setting, h: Seq<Seq<u8>>) -> Turn<SettingValue> {
        if !self.has(setting.feature()@) {
            unsupported(setting.feature())
        } else {
            self.read_setting_turn(setting, h)
        }
    }

    /// Reading one setting of a model that declares its capability.
    pub open spec fn read_setting_turn(&self, setting: Setting, h: Seq<Seq<u8>>) -> Turn<SettingValue> {
        match setting {
            Setting::PerfMode => map_turn(
                perf_turn(h, 0),
                |m: (PerfMode, FanMode)| SettingValue::PerfMode { mode: m.0, fan_mode: m.1 },
            ),
            Setting::CpuBoost => map_turn(cpu_boost_turn(h), |b| SettingValue::CpuBoost(b)),
            Setting::GpuBoost => map_turn(gpu_boost_turn(h), |b| SettingValue::GpuBoost(b)),
            Setting::FanMode => fan_setting_turn(h),
            Setting::MaxFanSpeed => map_turn(
                get_max_fan_speed_turn(h),
                |m| SettingValue::MaxFanSpeed(m),
            ),
            Setting::KeyboardBrightness => map_turn(get_keyboard_turn(h), |b| SettingValue::KeyboardBrightness(b)),
            Setting::LogoMode => map_turn(get_logo_turn(h), |m| SettingValue::LogoMode(m)),
            Setting::BatteryCare => map_turn(get_battery_care_turn(h), |c| SettingValue::BatteryCare(c)),
            Setting::LightsAlwaysOn => map_turn(get_lights_turn(h), |l| SettingValue::LightsAlwaysOn(l)),
        }
    }

    /// Reads one setting.
    pub fn get_setting(&self, setting: Setting, answers: &Vec<Vec<u8>>) -> (r: Exchange<SettingValue>)
        ensures
            r@ == self.get_setting_turn(setting, seqs(answers@)),
            r.within(0, answers@.len() as int),
    {
        let tag = setting.tag();
        if !self.supports(tag) {
            return Exchange::Done(Err(RazerError::FeatureNotSupported(tag)), 0);
        }
        match setting {
            Setting::PerfMode => match get_perf_mode_from(answers, 0) {
                Exchange::Send(req) => Exchange::Send(req),
                Exchange::Done(Err(e), n) => Exchange::Done(Err(e), n),
                Exchange::Done(Ok(m), n) => Exchange::Done(
                    Ok(SettingValue::PerfMode { mode: m.0, fan_mode: m.1 }),
                    n,
                ),
            },
            Setting::CpuBoost => match get_cpu_boost(answers) {
                Exchange::Send(req) => Exchange::Send(req),
                Exchange::Done(Err(e), n) => Exchange::Done(Err(e), n),
                Exchange::Done(Ok(b), n) => Exchange::Done(Ok(SettingValue::CpuBoost(b)), n),
            },
            Setting::GpuBoost => match get_gpu_boost(answers) {
                Exchange::Send(req) => Exchange::Send(req),
                Exchange::Done(Err(e), n) => Exchange::Done(Err(e), n),
                Exchange::Done(Ok(b), n) => Exchange::Done(Ok(SettingValue::GpuBoost(b)), n),
            },
            Setting::FanMode => match get_perf_mode_from(answers, 0) {
                Exchange::Send(req) => Exchange::Send(req),
                Exchange::Done(Err(e), n) => Exchange::Done(Err(e), n),
                Exchange::Done(Ok(m), n) => {
                    if m.1 == FanMode::Manual {
                        match get_fan_rpm_from(answers, n, FanZone::Zone1) {
                            Exchange::Send(req) => Exchange::Send(req),
                            Exchange::Done(Err(e), k) => Exchange::Done(Err(e), k),
                            Exchange::Done(Ok(rpm), k) => Exchange::Done(
                                Ok(SettingValue::Fan { mode: FanMode::Manual, rpm: Some(rpm) }),
                                k,
                            ),
                        }
                    } else {
                        Exchange::Done(Ok(SettingValue::Fan { mode: m.1, rpm: None }), n)
                    }
                },
            },
            Setting::MaxFanSpeed => match get_max_fan_speed_mode(answers) {
                Exchange::Send(req) => Exchange::Send(req),
                Exchange::Done(Err(e), n) => Exchange::Done(Err(e), n),
                Exchange::Done(Ok(m), n) => Exchange::Done(Ok(SettingValue::MaxFanSpeed(m)), n),
            },
            Setting::KeyboardBrightness => {
                match get_keyboard_brightness(answers) {
                    Exchange::Send(req) => Exchange::Send(req),
                    Exchange::Done(Err(e), n) => Exchange::Done(Err(e), n),
                    Exchange::Done(Ok(b), n) => Exchange::Done(
                        Ok(SettingValue::KeyboardBrightness(b)),
                        n,
                    ),
                }
            },
            Setting::LogoMode => {
                match get_logo_mode(answers) {
                    Exchange::Send(req) => Exchange::Send(req),
                    Exchange::Done(Err(e), n) => Exchange::Done(Err(e), n),
                    Exchange::Done(Ok(m), n) => Exchange::Done(Ok(SettingValue::LogoMode(m)), n),
                }
            },
            Setting::BatteryCare => {
                match get_battery_care(answers) {
                    Exchange::Send(req) => Exchange::Send(req),
                    Exchange::Done(Err(e), n) => Exchange::Done(Err(e), n),
                    Exchange::Done(Ok(c), n) => Exchange::Done(Ok(SettingValue::BatteryCare(c)), n),
                }
            },
            Setting::LightsAlwaysOn => {
                match get_lights_always_on(answers) {
                    Exchange::Send(req) => Exchange::Send(req),
                    Exchange::Done(Err(e), n) => Exchange::Done(Err(e), n),
                    Exchange::Done(Ok(l), n) => Exchange::Done(
                        Ok(SettingValue::LightsAlwaysOn(l)),
                        n,
                    ),
                }
            },
        }
    }

    /// Applying one setting: a capability the model lacks is refused
    /// before any exchange. A fan setting changes the fan mode and then, if
    /// a speed is given, the speed.
    pub open spec fn apply_setting_turn(&self, value: SettingValue, h: Seq<Seq<u8>>) -> Turn<()> {
        if !self.has(value.feature()@) {
            unsupported(value.feature())
        } else {
            self.write_setting_turn(value, h)
        }
    }

    /// Applying one setting to a model that declares its capability.
    pub open spec fn write_setting_turn(&self, value: SettingValue, h: Seq<Seq<u8>>) -> Turn<()> {
        match value {
            SettingValue::PerfMode { mode, .. } => set_modes_turn(h, 0, mode, FanMode::Auto),
            SettingValue::CpuBoost(b) => set_boost_turn(h, 0, Cluster::Cpu, b.byte()),
            SettingValue::GpuBoost(b) => set_boost_turn(h, 0, Cluster::Gpu, b.byte()),
            SettingValue::Fan { mode, rpm } => match set_fan_mode_turn(h, 0, mode) {
                Turn::Done(Ok(()), n) => match rpm {
                    Some(speed) => set_fan_rpm_turn(h, n, speed),
                    None => Turn::Done(Ok(()), n),
                },
                other => other,
            },
            SettingValue::MaxFanSpeed(m) => set_max_fan_speed_turn(h, m),
            SettingValue::KeyboardBrightness(b) => echo_turn(h, 0, SET_KBD_BRIGHTNESS, seq![1u8, 5, b]),
            SettingValue::LogoMode(m) => set_logo_turn(h, m),
            SettingValue::BatteryCare(c) => echo_turn(h, 0, SET_BATTERY_CARE, seq![c.byte()]),
            SettingValue::LightsAlwaysOn(l) => echo_turn(h, 0, SET_LIGHTS_ALWAYS_ON, seq![l.byte(), 0u8]),
        }
    }

    /// Applies one setting.
    pub fn apply_setting(&self, value: SettingValue, answers: &Vec<Vec<u8>>) -> (r: Exchange<()>)
        ensures
            r@ == self.apply_setting_turn(value, seqs(answers@)),
            r.within(0, answers@.len() as int),
    {
        let tag = value.tag();
        if !self.supports(tag) {
            return Exchange::Done(Err(RazerError::FeatureNotSupported(tag)), 0);
        }
        match value {
            SettingValue::PerfMode { mode, .. } => set_perf_mode(answers, mode),
            SettingValue::CpuBoost(b) => set_cpu_boost(answers, b),
            SettingValue::GpuBoost(b) => set_gpu_boost(answers, b),
            SettingValue::Fan { mode, rpm } => match set_fan_mode_from(answers, 0, mode) {
                Exchange::Done(Ok(()), n) => match rpm {
                    Some(speed) => set_fan_rpm_from(answers, n, speed),
                    None => Exchange::Done(Ok(()), n),
                },
                other => other,
            },
            SettingValue::MaxFanSpeed(m) => set_max_fan_speed_mode(answers, m),
            SettingValue::KeyboardBrightness(b) => {
                set_keyboard_brightness(answers, b)
            },
            SettingValue::LogoMode(m) => {
                set_logo_mode(answers, m)
            },
            SettingValue::BatteryCare(c) => {
                set_battery_care(answers, c)
            },
            SettingValue::LightsAlwaysOn(l) => {
                set_lights_always_on(answers, l)
            },
        }
    }

    /// One reading of a state snapshot.
    pub open spec fn read_turn(&self, reading: Reading, h: Seq<Seq<u8>>) -> Turn<SettingValue> {
        match reading {
            Reading::Setting(s) => self.get_setting_turn(s, h),
            Reading::FanRpm => if !self.has(FAN@) {
                unsupported(FAN)
            } else {
                map_turn(
                    get_fan_rpm_turn(h, 0, FanZone::Zone1),
                    |r: u16| SettingValue::Fan { mode: FanMode::Manual, rpm: Some(r) },
                )
            },
        }
    }

    /// Takes one reading of a state snapshot.
    pub fn read(&self, reading: Reading, answers: &Vec<Vec<u8>>) -> (r: Exchange<SettingValue>)
        ensures
            r@ == self.read_turn(reading, seqs(answers@)),
            r.within(0, answers@.len() as int),
    {
        match reading {
            Reading::Setting(s) => self.get_setting(s, answers),
            Reading::FanRpm => {
                if !self.supports(FAN) {
                    return Exchange::Done(Err(RazerError::FeatureNotSupported(FAN)), 0);
                }
                match get_fan_rpm_from(answers, 0, FanZone::Zone1) {
                Exchange::Send(req) => Exchange::Send(req),
                Exchange::Done(Err(e), n) => Exchange::Done(Err(e), n),
                    Exchange::Done(Ok(rpm), n) => Exchange::Done(
                        Ok(SettingValue::Fan { mode: FanMode::Manual, rpm: Some(rpm) }),
                        n,
                    ),
                }
            },
        }
    }

    /// The readings of a snapshot, each only when the model declares its
    /// capability, given the answer to the modes reading (`first`): the
    /// modes, boosts only in Custom mode, the fan speed only with manual
    /// fans, max fan speed, then the lighting and battery settings.
    pub open spec fn state_plan(&self, first: Option<SettingValue>) -> Seq<Reading> {
        self.if_has(PERF@, Setting::PerfMode) + boost_readings(first) + self.fan_speed_readings(
            first,
        ) + self.if_has(FAN@, Setting::MaxFanSpeed) + self.if_has(
            KBDBACKLIGHT@,
            Setting::KeyboardBrightness,
        ) + self.if_has(BATTERYCARE@, Setting::BatteryCare) + self.if_has(
            LIDLOGO@,
            Setting::LogoMode,
        ) + self.if_has(LIGHTSALWAYSON@, Setting::LightsAlwaysOn)
    }

    /// The fan-speed reading, for a model with fan control and manual fans.
    pub open spec fn fan_speed_readings(&self, first: Option<SettingValue>) -> Seq<Reading> {
        if self.has(FAN@) {
            fan_readings(first)
        } else {
            Seq::empty()
        }
    }

    /// The answer to the modes reading among `got`, if the model reads modes.
    pub open spec fn modes_answer(&self, got: Seq<Option<SettingValue>>) -> Option<SettingValue> {
        if self.has(PERF@) && got.len() > 0 {
            got[0]
        } else {
            None
        }
    }

    /// Reading `setting` when the model declares `tag`, else nothing.
    pub open spec fn if_has(&self, tag: Seq<char>, setting: Setting) -> Seq<Reading> {
        if self.has(tag) {
            seq![Reading::Setting(setting)]
        } else {
            Seq::empty()
        }
    }

    /// The next move of a snapshot after the answers `got` (`None` for a
    /// failed reading).
    pub open spec fn read_state_step(&self, got: Seq<Option<SettingValue>>) -> StateStep {
        let plan = self.state_plan(self.modes_answer(got));
        if got.len() < plan.len() {
            StateStep::Read(plan[got.len() as int])
        } else {
            StateStep::Done(state_of(plan, got))
        }
    }

    /// Reading or applying a setting whose capability the model does not
    /// declare fails with `FeatureNotSupported` naming that capability,
    /// before any exchange.
    pub proof fn lemma_undeclared_feature_refused(
        &self,
        setting: Setting,
        value: SettingValue,
        h: Seq<Seq<u8>>,
    )
        ensures
            !self.has(setting.feature()@) ==> self.get_setting_turn(setting, h) == Turn::<
                SettingValue,
            >::Done(Err(RazerError::FeatureNotSupported(setting.feature())), 0),
            !self.has(value.feature()@) ==> self.apply_setting_turn(value, h) == Turn::<()>::Done(
                Err(RazerError::FeatureNotSupported(value.feature())),
                0,
            ),
    {
    }

    fn plan(&self, first: Option<SettingValue>) -> (r: Vec<Reading>)
        ensures
            r@ == self.state_plan(first),
    {
        let mut plan: Vec<Reading> = Vec::new();
        self.push_if_supported(&mut plan, PERF, Setting::PerfMode);
        if let Some(SettingValue::PerfMode { mode, fan_mode }) = first {
            if mode == PerfMode::Custom {
                plan.push(Reading::Setting(Setting::CpuBoost));
                plan.push(Reading::Setting(Setting::GpuBoost));
            }
        }
        assert(plan@ =~= self.if_has(PERF@, Setting::PerfMode) + boost_readings(first));
        if self.supports(FAN) {
            if let Some(SettingValue::PerfMode { mode, fan_mode }) = first {
                if fan_mode == FanMode::Manual {
                    plan.push(Reading::FanRpm);
                }
            }
        }
        assert(plan@ =~= self.if_has(PERF@, Setting::PerfMode) + boost_readings(first)
            + self.fan_speed_readings(first));
        self.push_if_supported(&mut plan, FAN, Setting::MaxFanSpeed);
        self.push_if_supported(&mut plan, KBDBACKLIGHT, Setting::KeyboardBrightness);
        self.push_if_supported(&mut plan, BATTERYCARE, Setting::BatteryCare);
        self.push_if_supported(&mut plan, LIDLOGO, Setting::LogoMode);
        self.push_if_supported(&mut plan, LIGHTSALWAYSON, Setting::LightsAlwaysOn);
        assert(plan@ =~= self.state_plan(first));
        plan
    }

    fn push_if_supported(&self, plan: &mut Vec<Reading>, tag: &str, setting: Setting)
        ensures
            final(plan)@ == old(plan)@ + self.if_has(tag@, setting),
    {
        if self.supports(tag) {
            plan.push(Reading::Setting(setting));
        }
        assert(plan@ =~= old(plan)@ + self.if_has(tag@, setting));
    }

    /// The next move of a state snapshot: the reading to take after the
    /// answers `got` (`None` for a reading that failed), or the snapshot.
    pub fn read_state(&self, got: &Vec<Option<SettingValue>>) -> (r: StateStep)
        ensures
            r == self.read_state_step(got@),
    {
        let first = if self.supports(PERF) && got.len() > 0 {
            got[0]
        } else {
            None
        };
        let plan = self.plan(first);
        if got.len() < plan.len() {
            return StateStep::Read(plan[got.len()]);
        }
        let mut state = DeviceState::default();
        let mut k: usize = 0;
        assert(plan@.subrange(0, 0) =~= Seq::<Reading>::empty());
        while k < plan.len()
            invariant
                k <= plan@.len() <= got@.len(),
                state == state_of(plan@.subrange(0, k as int), got@),
            decreases plan@.len() - k,
        {
            let ghost before = plan@.subrange(0, k as int);
            assert(plan@.subrange(0, k + 1).drop_last() =~= before);
            let answer = got[k];
            match plan[k] {
                Reading::Setting(Setting::PerfMode) => {
                    state.perf_mode = match answer {
                        Some(SettingValue::PerfMode { mode, fan_mode }) => Some(mode),
                        _ => None,
                    };
                    state.fan_mode = match answer {
                        Some(SettingValue::PerfMode { mode, fan_mode }) => Some(fan_mode),
                        _ => None,
                    };
                },
                Reading::Setting(Setting::CpuBoost) => {
                    state.cpu_boost = match answer {
                        Some(SettingValue::CpuBoost(b)) => Some(b),
                        _ => None,
                    };
                },
                Reading::Setting(Setting::GpuBoost) => {
                    state.gpu_boost = match answer {
                        Some(SettingValue::GpuBoost(b)) => Some(b),
                        _ => None,
                    };
                },
                Reading::Setting(Setting::FanMode) => {},
                Reading::FanRpm => {
                    state.fan_rpm = match answer {
                        Some(SettingValue::Fan { mode, rpm: Some(r) }) => Some(r),
                        _ => None,
                    };
                },
                Reading::Setting(Setting::MaxFanSpeed) => {
                    state.max_fan_speed = match answer {
                        Some(SettingValue::MaxFanSpeed(m)) => Some(m),
                        _ => None,
                    };
                },
                Reading::Setting(Setting::KeyboardBrightness) => {
                    state.keyboard_brightness = match answer {
                        Some(SettingValue::KeyboardBrightness(b)) => Some(b),
                        _ => None,
                    };
                },
                Reading::Setting(Setting::LogoMode) => {
                    state.logo_mode = match answer {
                        Some(SettingValue::LogoMode(m)) => Some(m),
                        _ => None,
                    };
                },
                Reading::Setting(Setting::BatteryCare) => {
                    state.battery_care = match answer {
                        Some(SettingValue::BatteryCare(c)) => Some(c),
                        _ => None,
                    };
                },
                Reading::Setting(Setting::LightsAlwaysOn) => {
                    state.lights_always_on = match answer {
                        Some(SettingValue::LightsAlwaysOn(l)) => Some(l),
                        _ => None,
                    };
                },
            }
            k = k + 1;
        }
        assert(plan@.subrange(0, plan@.len() as int) =~= plan@);
        StateStep::Done(state)
    }
}

} // verus!
