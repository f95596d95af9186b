//! The command layer. A device operation may take several request/response
//! exchanges, and which request comes next depends on the responses so far.
//! Each operation is therefore a function from the argument bytes of the
//! validated responses received so far (`answers`) to its next move: the
//! request to send, or the result and the number of answers it used. The
//! caller performs each request on the device and hands back the response's
//! arguments; the first failed exchange ends the operation with that error.
use crate::error::{Precondition, RazerError};
use crate::types::{
    BatteryCare, Cluster, CpuBoost, FanMode, FanZone, GpuBoost, LightsAlwaysOn, LogoMode,
    MaxFanSpeedMode, PerfMode, ThermalZone, LOGO_MODE_NAME,
};
use vstd::prelude::*;

verus! {

pub const SET_PERF_MODE: u16 = 0x0d02;
pub const GET_PERF_MODE: u16 = 0x0d82;
pub const SET_BOOST: u16 = 0x0d07;
pub const GET_BOOST: u16 = 0x0d87;
pub const SET_FAN_RPM: u16 = 0x0d01;
pub const GET_FAN_RPM: u16 = 0x0d81;
pub const SET_MAX_FAN_SPEED: u16 = 0x070f;
pub const GET_MAX_FAN_SPEED: u16 = 0x078f;
pub const SET_LOGO_POWER: u16 = 0x0300;
pub const GET_LOGO_POWER: u16 = 0x0380;
pub const SET_LOGO_MODE: u16 = 0x0302;
pub const GET_LOGO_MODE: u16 = 0x0382;
pub const SET_KBD_BRIGHTNESS: u16 = 0x0303;
pub const GET_KBD_BRIGHTNESS: u16 = 0x0383;
pub const SET_LIGHTS_ALWAYS_ON: u16 = 0x0004;
pub const GET_LIGHTS_ALWAYS_ON: u16 = 0x0084;
pub const SET_BATTERY_CARE: u16 = 0x0712;
pub const GET_BATTERY_CARE: u16 = 0x0792;

/// A command to send: its 16-bit code and its argument bytes.
#[derive(Clone, Debug)]
pub struct Request {
    pub command: u16,
    pub args: Vec<u8>,
}

/// The next move of an operation, as the contracts speak of it.
pub enum Turn<T> {
    Send(u16, Seq<u8>),
    Done(Result<T, RazerError>, int),
}

/// The next move of an operation: a request to send, or the result together
/// with the number of answers the operation used.
#[derive(Debug)]
pub enum Exchange<T> {
    Send(Request),
    Done(Result<T, RazerError>, usize),
}

impl<T> Exchange<T> {
    pub open spec fn view(&self) -> Turn<T> {
        match self {
            Exchange::Send(r) => Turn::Send(r.command, r.args@),
            Exchange::Done(res, n) => Turn::Done(*res, *n as int),
        }
    }

    /// A finished operation used no answer before `at` nor beyond `len`.
    pub open spec fn within(&self, at: int, len: int) -> bool {
        match self {
            Exchange::Send(_) => true,
            Exchange::Done(_, n) => at <= *n <= len,
        }
    }
}

/// The answers as byte sequences.
pub open spec fn seqs(h: Seq<Vec<u8>>) -> Seq<Seq<u8>> {
    h.map_values(|a: Vec<u8>| a@)
}

/// `answer` begins with exactly the bytes of `args`.
pub open spec fn echoes(answer: Seq<u8>, args: Seq<u8>) -> bool {
    args.len() <= answer.len() && answer.subrange(0, args.len() as int) == args
}

/// A short answer: fewer than `needed` argument bytes.
pub open spec fn too_short<T>(answer: Seq<u8>, needed: usize) -> Result<T, RazerError> {
    Err(RazerError::InvalidDataSize { expected: needed, actual: answer.len() as usize })
}

/// Sends `command` with `args` and accepts the answer only if it echoes them.
pub open spec fn echo_turn(h: Seq<Seq<u8>>, at: int, command: u16, args: Seq<u8>) -> Turn<()> {
    if at >= h.len() {
        Turn::Send(command, args)
    } else if echoes(h[at], args) {
        Turn::Done(Ok(()), at + 1)
    } else {
        Turn::Done(Err(RazerError::ResponseMismatch), at + 1)
    }
}

fn echoes_exec(answer: &Vec<u8>, args: &Vec<u8>) -> (r: bool)
    ensures
        r == echoes(answer@, args@),
{
    if args.len() > answer.len() {
        return false;
    }
    let mut i: usize = 0;
    while i < args.len()
        invariant
            args@.len() <= answer@.len(),
            i <= args@.len(),
            forall|j: int| 0 <= j < i ==> answer@[j] == args@[j],
        decreases args@.len() - i,
    {
        if answer[i] != args[i] {
            assert(answer@.subrange(0, args@.len() as int)[i as int] != args@[i as int]);
            return false;
        }
        i = i + 1;
    }
    assert(answer@.subrange(0, args@.len() as int) =~= args@);
    true
}

pub(crate) fn send_command(answers: &Vec<Vec<u8>>, at: usize, command: u16, args: Vec<u8>) -> (r: Exchange<()>)
    requires
        at <= answers@.len(),
    ensures
        r@ == echo_turn(seqs(answers@), at as int, command, args@),
        r.within(at as int, answers@.len() as int),
{
    if at >= answers.len() {
        Exchange::Send(Request { command, args })
    } else if echoes_exec(&answers[at], &args) {
        Exchange::Done(Ok(()), at + 1)
    } else {
        Exchange::Done(Err(RazerError::ResponseMismatch), at + 1)
    }
}

// ---------------------------------------------------------------- perf mode

pub open spec fn perf_of(b: u8) -> Result<PerfMode, RazerError> {
    PerfMode::decode(b)
}

pub open spec fn fan_of(b: u8) -> Result<FanMode, RazerError> {
    FanMode::decode(b)
}

/// Performance and fan mode as a perf-mode read reports them in bytes 2, 3.
pub open spec fn decode_modes(a: Seq<u8>) -> Result<(PerfMode, FanMode), RazerError> {
    if a.len() < 4 {
        too_short(a, 4)
    } else {
        match perf_of(a[2]) {
            Err(e) => Err(e),
            Ok(p) => match fan_of(a[3]) {
                Err(e) => Err(e),
                Ok(f) => Ok((p, f)),
            },
        }
    }
}

fn decode_modes_exec(a: &Vec<u8>) -> (r: Result<(PerfMode, FanMode), RazerError>)
    ensures
        r == decode_modes(a@),
{
    if a.len() < 4 {
        return Err(RazerError::InvalidDataSize { expected: 4, actual: a.len() });
    }
    match PerfMode::try_from(a[2]) {
        Err(e) => Err(e),
        Ok(p) => match FanMode::try_from(a[3]) {
            Err(e) => Err(e),
            Ok(f) => Ok((p, f)),
        },
    }
}

/// Reads the mode of thermal zone 1, then of zone 2; the two must agree.
pub open spec fn perf_turn(h: Seq<Seq<u8>>, at: int) -> Turn<(PerfMode, FanMode)> {
    if at >= h.len() {
        Turn::Send(GET_PERF_MODE, seq![0u8, 1, 0, 0])
    } else {
        match decode_modes(h[at]) {
            Err(e) => Turn::Done(Err(e), at + 1),
            Ok(first) => if at + 1 >= h.len() {
                Turn::Send(GET_PERF_MODE, seq![0u8, 2, 0, 0])
            } else {
                match decode_modes(h[at + 1]) {
                    Err(e) => Turn::Done(Err(e), at + 2),
                    Ok(second) => if first == second {
                        Turn::Done(Ok(first), at + 2)
                    } else {
                        Turn::Done(
                            Err(RazerError::PreconditionFailed(Precondition::ModesDisagree)),
                            at + 2,
                        )
                    },
                }
            },
        }
    }
}

pub(crate) fn get_perf_mode_from(answers: &Vec<Vec<u8>>, at: usize) -> (r: Exchange<(PerfMode, FanMode)>)
    requires
        at <= answers@.len(),
    ensures
        r@ == perf_turn(seqs(answers@), at as int),
        r.within(at as int, answers@.len() as int),
{
    if at >= answers.len() {
        return Exchange::Send(Request { command: GET_PERF_MODE, args: vec![0u8, 1, 0, 0] });
    }
    match decode_modes_exec(&answers[at]) {
        Err(e) => Exchange::Done(Err(e), at + 1),
        Ok(first) => {
            if at + 1 >= answers.len() {
                return Exchange::Send(
                    Request { command: GET_PERF_MODE, args: vec![0u8, 2, 0, 0] },
                );
            }
            match decode_modes_exec(&answers[at + 1]) {
                Err(e) => Exchange::Done(Err(e), at + 2),
                Ok(second) => {
                    if first.0 == second.0 && first.1 == second.1 {
                        Exchange::Done(Ok(first), at + 2)
                    } else {
                        Exchange::Done(
                            Err(RazerError::PreconditionFailed(Precondition::ModesDisagree)),
                            at + 2,
                        )
                    }
                },
            }
        },
    }
}

/// Writes `(perf, fan)` to thermal zone 1, then to zone 2. Manual fan
/// control is refused outside Balanced mode, before anything is sent.
pub open spec fn set_modes_turn(h: Seq<Seq<u8>>, at: int, perf: PerfMode, fan: FanMode) -> Turn<()> {
    if fan == FanMode::Manual && perf != PerfMode::Balanced {
        Turn::Done(
            Err(RazerError::PreconditionFailed(Precondition::ManualFanRequiresBalanced)),
            at,
        )
    } else {
        match echo_turn(h, at, SET_PERF_MODE, seq![1u8, 1, perf.byte(), fan.byte()]) {
            Turn::Done(Ok(()), n) => echo_turn(
                h,
                n,
                SET_PERF_MODE,
                seq![1u8, 2, perf.byte(), fan.byte()],
            ),
            other => other,
        }
    }
}

fn set_perf_mode_internal(answers: &Vec<Vec<u8>>, at: usize, perf: PerfMode, fan: FanMode) -> (r: Exchange<
    (),
>)
    requires
        at <= answers@.len(),
    ensures
        r@ == set_modes_turn(seqs(answers@), at as int, perf, fan),
        r.within(at as int, answers@.len() as int),
{
    if fan == FanMode::Manual && perf != PerfMode::Balanced {
        return Exchange::Done(
            Err(RazerError::PreconditionFailed(Precondition::ManualFanRequiresBalanced)),
            at,
        );
    }
    let p = perf.to_byte();
    let f = fan.to_byte();
    match send_command(answers, at, SET_PERF_MODE, vec![1u8, ThermalZone::Zone1.to_byte(), p, f]) {
        Exchange::Done(Ok(()), n) => send_command(
            answers,
            n,
            SET_PERF_MODE,
            vec![1u8, ThermalZone::Zone2.to_byte(), p, f],
        ),
        other => other,
    }
}

/// Sets the performance mode in both thermal zones, with automatic fans.
pub fn set_perf_mode(answers: &Vec<Vec<u8>>, perf_mode: PerfMode) -> (r: Exchange<()>)
    ensures
        r@ == set_modes_turn(seqs(answers@), 0, perf_mode, FanMode::Auto),
        r.within(0, answers@.len() as int),
{
    set_perf_mode_internal(answers, 0, perf_mode, FanMode::Auto)
}

/// Reads the performance and fan mode of both thermal zones, which must
/// agree.
pub fn get_perf_mode(answers: &Vec<Vec<u8>>) -> (r: Exchange<(PerfMode, FanMode)>)
    ensures
        r@ == perf_turn(seqs(answers@), 0),
        r.within(0, answers@.len() as int),
{
    get_perf_mode_from(answers, 0)
}

// -------------------------------------------------------------------- boost

/// Changes a boost level; only in Custom mode with automatic fans, which is
/// read first.
pub open spec fn set_boost_turn(h: Seq<Seq<u8>>, at: int, cluster: Cluster, boost: u8) -> Turn<()> {
    match perf_turn(h, at) {
        Turn::Send(c, a) => Turn::Send(c, a),
        Turn::Done(Err(e), n) => Turn::Done(Err(e), n),
        Turn::Done(Ok(m), n) => if m != (PerfMode::Custom, FanMode::Auto) {
            Turn::Done(Err(RazerError::PreconditionFailed(Precondition::RequiresCustomAuto)), n)
        } else {
            echo_turn(h, n, SET_BOOST, seq![0u8, cluster.byte(), boost])
        },
    }
}

fn set_boost_internal(answers: &Vec<Vec<u8>>, cluster: Cluster, boost: u8) -> (r: Exchange<()>)
    ensures
        r@ == set_boost_turn(seqs(answers@), 0, cluster, boost),
        r.within(0, answers@.len() as int),
{
    match get_perf_mode_from(answers, 0) {
        Exchange::Send(req) => Exchange::Send(req),
        Exchange::Done(Err(e), n) => Exchange::Done(Err(e), n),
        Exchange::Done(Ok(m), n) => {
            if !(m.0 == PerfMode::Custom && m.1 == FanMode::Auto) {
                Exchange::Done(
                    Err(RazerError::PreconditionFailed(Precondition::RequiresCustomAuto)),
                    n,
                )
            } else {
                send_command(answers, n, SET_BOOST, vec![0u8, cluster.to_byte(), boost])
            }
        },
    }
}

/// Reads the boost byte of a cluster; the answer must name the cluster.
pub open spec fn get_boost_turn(h: Seq<Seq<u8>>, cluster: Cluster) -> Turn<u8> {
    if h.len() == 0 {
        Turn::Send(GET_BOOST, seq![0u8, cluster.byte(), 0])
    } else if h[0].len() < 3 {
        Turn::Done(too_short(h[0], 3), 1)
    } else if h[0][1] != cluster.byte() {
        Turn::Done(Err(RazerError::ResponseMismatch), 1)
    } else {
        Turn::Done(Ok(h[0][2]), 1)
    }
}

fn get_boost_internal(answers: &Vec<Vec<u8>>, cluster: Cluster) -> (r: Exchange<u8>)
    ensures
        r@ == get_boost_turn(seqs(answers@), cluster),
        r.within(0, answers@.len() as int),
{
    let c = cluster.to_byte();
    if answers.len() == 0 {
        Exchange::Send(Request { command: GET_BOOST, args: vec![0u8, c, 0] })
    } else if answers[0].len() < 3 {
        Exchange::Done(Err(RazerError::InvalidDataSize { expected: 3, actual: answers[0].len() }), 1)
    } else if answers[0][1] != c {
        Exchange::Done(Err(RazerError::ResponseMismatch), 1)
    } else {
        Exchange::Done(Ok(answers[0][2]), 1)
    }
}

/// Sets the CPU boost level; requires Custom mode with automatic fans.
pub fn set_cpu_boost(answers: &Vec<Vec<u8>>, boost: CpuBoost) -> (r: Exchange<()>)
    ensures
        r@ == set_boost_turn(seqs(answers@), 0, Cluster::Cpu, boost.byte()),
        r.within(0, answers@.len() as int),
{
    set_boost_internal(answers, Cluster::Cpu, boost.to_byte())
}

/// Sets the GPU boost level; requires Custom mode with automatic fans.
pub fn set_gpu_boost(answers: &Vec<Vec<u8>>, boost: GpuBoost) -> (r: Exchange<()>)
    ensures
        r@ == set_boost_turn(seqs(answers@), 0, Cluster::Gpu, boost.byte()),
        r.within(0, answers@.len() as int),
{
    set_boost_internal(answers, Cluster::Gpu, boost.to_byte())
}

pub open spec fn cpu_boost_turn(h: Seq<Seq<u8>>) -> Turn<CpuBoost> {
    match get_boost_turn(h, Cluster::Cpu) {
        Turn::Send(c, a) => Turn::Send(c, a),
        Turn::Done(Err(e), n) => Turn::Done(Err(e), n),
        Turn::Done(Ok(b), n) => Turn::Done(CpuBoost::decode(b), n),
    }
}

pub open spec fn gpu_boost_turn(h: Seq<Seq<u8>>) -> Turn<GpuBoost> {
    match get_boost_turn(h, Cluster::Gpu) {
        Turn::Send(c, a) => Turn::Send(c, a),
        Turn::Done(Err(e), n) => Turn::Done(Err(e), n),
        Turn::Done(Ok(b), n) => Turn::Done(GpuBoost::decode(b), n),
    }
}

/// Reads the CPU boost level.
pub fn get_cpu_boost(answers: &Vec<Vec<u8>>) -> (r: Exchange<CpuBoost>)
    ensures
        r@ == cpu_boost_turn(seqs(answers@)),
        r.within(0, answers@.len() as int),
{
    match get_boost_internal(answers, Cluster::Cpu) {
        Exchange::Send(req) => Exchange::Send(req),
        Exchange::Done(Err(e), n) => Exchange::Done(Err(e), n),
        Exchange::Done(Ok(b), n) => Exchange::Done(CpuBoost::try_from(b), n),
    }
}

/// Reads the GPU boost level.
pub fn get_gpu_boost(answers: &Vec<Vec<u8>>) -> (r: Exchange<GpuBoost>)
    ensures
        r@ == gpu_boost_turn(seqs(answers@)),
        r.within(0, answers@.len() as int),
{
    match get_boost_internal(answers, Cluster::Gpu) {
        Exchange::Send(req) => Exchange::Send(req),
        Exchange::Done(Err(e), n) => Exchange::Done(Err(e), n),
        Exchange::Done(Ok(b), n) => Exchange::Done(GpuBoost::try_from(b), n),
    }
}

// ---------------------------------------------------------------------- fans

/// Sets a fan speed of 2000..=5000 RPM, in units of 100 RPM, to fan 1 and
/// then fan 2; only in Balanced mode with manual fans, which is read first.
/// A speed out of range is refused before anything is sent.
pub open spec fn set_fan_rpm_turn(h: Seq<Seq<u8>>, at: int, rpm: u16) -> Turn<()> {
    if rpm < 2000 || rpm > 5000 {
        Turn::Done(Err(RazerError::PreconditionFailed(Precondition::RpmOutOfRange)), at)
    } else {
        match perf_turn(h, at) {
            Turn::Send(c, a) => Turn::Send(c, a),
            Turn::Done(Err(e), n) => Turn::Done(Err(e), n),
            Turn::Done(Ok(m), n) => if m != (PerfMode::Balanced, FanMode::Manual) {
                Turn::Done(
                    Err(RazerError::PreconditionFailed(Precondition::RequiresBalancedManual)),
                    n,
                )
            } else {
                match echo_turn(h, n, SET_FAN_RPM, seq![0u8, 1, (rpm / 100) as u8]) {
                    Turn::Done(Ok(()), k) => echo_turn(
                        h,
                        k,
                        SET_FAN_RPM,
                        seq![0u8, 2, (rpm / 100) as u8],
                    ),
                    other => other,
                }
            },
        }
    }
}

pub(crate) fn set_fan_rpm_from(answers: &Vec<Vec<u8>>, at: usize, rpm: u16) -> (r: Exchange<()>)
    requires
        at <= answers@.len(),
    ensures
        r@ == set_fan_rpm_turn(seqs(answers@), at as int, rpm),
        r.within(at as int, answers@.len() as int),
{
    if rpm < 2000 || rpm > 5000 {
        return Exchange::Done(
            Err(RazerError::PreconditionFailed(Precondition::RpmOutOfRange)),
            at,
        );
    }
    match get_perf_mode_from(answers, at) {
        Exchange::Send(req) => Exchange::Send(req),
        Exchange::Done(Err(e), n) => Exchange::Done(Err(e), n),
        Exchange::Done(Ok(m), n) => {
            if !(m.0 == PerfMode::Balanced && m.1 == FanMode::Manual) {
                return Exchange::Done(
                    Err(RazerError::PreconditionFailed(Precondition::RequiresBalancedManual)),
                    n,
                );
            }
            let speed = (rpm / 100) as u8;
            match send_command(answers, n, SET_FAN_RPM, vec![0u8, FanZone::Zone1.to_byte(), speed]) {
                Exchange::Done(Ok(()), k) => send_command(
                    answers,
                    k,
                    SET_FAN_RPM,
                    vec![0u8, FanZone::Zone2.to_byte(), speed],
                ),
                other => other,
            }
        },
    }
}

/// Sets the speed of both fans; requires Balanced mode with manual fans.
pub fn set_fan_rpm(answers: &Vec<Vec<u8>>, rpm: u16) -> (r: Exchange<()>)
    ensures
        r@ == set_fan_rpm_turn(seqs(answers@), 0, rpm),
        r.within(0, answers@.len() as int),
{
    set_fan_rpm_from(answers, 0, rpm)
}

/// Reads the speed of a fan: byte 2 of the answer, in units of 100 RPM.
pub open spec fn get_fan_rpm_turn(h: Seq<Seq<u8>>, at: int, zone: FanZone) -> Turn<u16> {
    if at >= h.len() {
        Turn::Send(GET_FAN_RPM, seq![0u8, zone.byte(), 0])
    } else if h[at].len() < 3 {
        Turn::Done(too_short(h[at], 3), at + 1)
    } else if h[at][1] != zone.byte() {
        Turn::Done(Err(RazerError::ResponseMismatch), at + 1)
    } else {
        Turn::Done(Ok((h[at][2] as u16 * 100) as u16), at + 1)
    }
}

pub(crate) fn get_fan_rpm_from(answers: &Vec<Vec<u8>>, at: usize, fan_zone: FanZone) -> (r: Exchange<u16>)
    requires
        at <= answers@.len(),
    ensures
        r@ == get_fan_rpm_turn(seqs(answers@), at as int, fan_zone),
        r.within(at as int, answers@.len() as int),
{
    let z = fan_zone.to_byte();
    if at >= answers.len() {
        Exchange::Send(Request { command: GET_FAN_RPM, args: vec![0u8, z, 0] })
    } else if answers[at].len() < 3 {
        Exchange::Done(Err(RazerError::InvalidDataSize { expected: 3, actual: answers[at].len() }), at + 1)
    } else if answers[at][1] != z {
        Exchange::Done(Err(RazerError::ResponseMismatch), at + 1)
    } else {
        Exchange::Done(Ok(answers[at][2] as u16 * 100), at + 1)
    }
}

/// Reads the speed of one fan in RPM.
pub fn get_fan_rpm(answers: &Vec<Vec<u8>>, fan_zone: FanZone) -> (r: Exchange<u16>)
    ensures
        r@ == get_fan_rpm_turn(seqs(answers@), 0, fan_zone),
        r.within(0, answers@.len() as int),
{
    get_fan_rpm_from(answers, 0, fan_zone)
}

/// Switches max fan speed; only in Custom mode, which is read first.
pub open spec fn set_max_fan_speed_turn(h: Seq<Seq<u8>>, mode: MaxFanSpeedMode) -> Turn<()> {
    match perf_turn(h, 0) {
        Turn::Send(c, a) => Turn::Send(c, a),
        Turn::Done(Err(e), n) => Turn::Done(Err(e), n),
        Turn::Done(Ok(m), n) => if m.0 != PerfMode::Custom {
            Turn::Done(Err(RazerError::PreconditionFailed(Precondition::RequiresCustom)), n)
        } else {
            echo_turn(h, n, SET_MAX_FAN_SPEED, seq![mode.byte()])
        },
    }
}

/// Enables or disables max fan speed; requires Custom mode.
pub fn set_max_fan_speed_mode(answers: &Vec<Vec<u8>>, mode: MaxFanSpeedMode) -> (r: Exchange<()>)
    ensures
        r@ == set_max_fan_speed_turn(seqs(answers@), mode),
        r.within(0, answers@.len() as int),
{
    match get_perf_mode_from(answers, 0) {
        Exchange::Send(req) => Exchange::Send(req),
        Exchange::Done(Err(e), n) => Exchange::Done(Err(e), n),
        Exchange::Done(Ok(m), n) => {
            if m.0 != PerfMode::Custom {
                Exchange::Done(Err(RazerError::PreconditionFailed(Precondition::RequiresCustom)), n)
            } else {
                let args = vec![mode.to_byte()];
                assert(args@ =~= seq![mode.byte()]);
                send_command(answers, n, SET_MAX_FAN_SPEED, args)
            }
        },
    }
}

/// Reads the max-fan-speed switch from byte 0 of the answer.
pub open spec fn get_max_fan_speed_turn(h: Seq<Seq<u8>>) -> Turn<MaxFanSpeedMode> {
    if h.len() == 0 {
        Turn::Send(GET_MAX_FAN_SPEED, seq![0u8])
    } else if h[0].len() < 1 {
        Turn::Done(too_short(h[0], 1), 1)
    } else {
        Turn::Done(MaxFanSpeedMode::decode(h[0][0]), 1)
    }
}

/// Reads whether max fan speed is on.
pub fn get_max_fan_speed_mode(answers: &Vec<Vec<u8>>) -> (r: Exchange<MaxFanSpeedMode>)
    ensures
        r@ == get_max_fan_speed_turn(seqs(answers@)),
        r.within(0, answers@.len() as int),
{
    if answers.len() == 0 {
        let args = vec![0u8];
        assert(args@ =~= seq![0u8]);
        Exchange::Send(Request { command: GET_MAX_FAN_SPEED, args })
    } else if answers[0].len() < 1 {
        Exchange::Done(Err(RazerError::InvalidDataSize { expected: 1, actual: answers[0].len() }), 1)
    } else {
        Exchange::Done(MaxFanSpeedMode::try_from(answers[0][0]), 1)
    }
}

/// Changes the fan mode; only in Balanced mode, which is read first. The
/// mode is written as Balanced with the new fan mode to both zones.
pub open spec fn set_fan_mode_turn(h: Seq<Seq<u8>>, at: int, mode: FanMode) -> Turn<()> {
    match perf_turn(h, at) {
        Turn::Send(c, a) => Turn::Send(c, a),
        Turn::Done(Err(e), n) => Turn::Done(Err(e), n),
        Turn::Done(Ok(m), n) => if m.0 != PerfMode::Balanced {
            Turn::Done(Err(RazerError::PreconditionFailed(Precondition::RequiresBalanced)), n)
        } else {
            set_modes_turn(h, n, PerfMode::Balanced, mode)
        },
    }
}

pub(crate) fn set_fan_mode_from(answers: &Vec<Vec<u8>>, at: usize, mode: FanMode) -> (r: Exchange<()>)
    requires
        at <= answers@.len(),
    ensures
        r@ == set_fan_mode_turn(seqs(answers@), at as int, mode),
        r.within(at as int, answers@.len() as int),
{
    match get_perf_mode_from(answers, at) {
        Exchange::Send(req) => Exchange::Send(req),
        Exchange::Done(Err(e), n) => Exchange::Done(Err(e), n),
        Exchange::Done(Ok(m), n) => {
            if m.0 != PerfMode::Balanced {
                Exchange::Done(Err(RazerError::PreconditionFailed(Precondition::RequiresBalanced)), n)
            } else {
                set_perf_mode_internal(answers, n, PerfMode::Balanced, mode)
            }
        },
    }
}

/// Sets the fan mode; requires Balanced mode.
pub fn set_fan_mode(answers: &Vec<Vec<u8>>, mode: FanMode) -> (r: Exchange<()>)
    ensures
        r@ == set_fan_mode_turn(seqs(answers@), 0, mode),
        r.within(0, answers@.len() as int),
{
    set_fan_mode_from(answers, 0, mode)
}

// -------------------------------------------------------------------- custom

/// Sends a command verbatim; only the status of its response counts.
/// Arguments that do not fit a packet are refused before anything is sent.
pub open spec fn custom_turn(h: Seq<Seq<u8>>, command: u16, args: Seq<u8>) -> Turn<()> {
    if args.len() > 80 {
        Turn::Done(Err(RazerError::InvalidDataSize { expected: 80, actual: args.len() as usize }), 0)
    } else if h.len() == 0 {
        Turn::Send(command, args)
    } else {
        Turn::Done(Ok(()), 1)
    }
}

/// Sends a raw command to the device.
pub fn custom_command(answers: &Vec<Vec<u8>>, command: u16, args: &[u8]) -> (r: Exchange<()>)
    ensures
        r@ == custom_turn(seqs(answers@), command, args@),
        r.within(0, answers@.len() as int),
{
    if args.len() > 80 {
        Exchange::Done(Err(RazerError::InvalidDataSize { expected: 80, actual: args.len() }), 0)
    } else if answers.len() == 0 {
        Exchange::Send(Request { command, args: vstd::slice::slice_to_vec(args) })
    } else {
        Exchange::Done(Ok(()), 1)
    }
}

// ---------------------------------------------------------------------- logo

/// The pattern byte of a lit logo: Static 0, Breathing 2.
pub open spec fn logo_pattern(mode: LogoMode) -> u8 {
    if mode == LogoMode::Breathing {
        2
    } else {
        0
    }
}

/// Switches the logo's power: off for `Off`, on otherwise.
pub open spec fn set_logo_power_turn(h: Seq<Seq<u8>>, at: int, mode: LogoMode) -> Turn<()> {
    echo_turn(h, at, SET_LOGO_POWER, seq![1u8, 4, if mode == LogoMode::Off { 0u8 } else { 1u8 }])
}

fn set_logo_power(answers: &Vec<Vec<u8>>, at: usize, mode: LogoMode) -> (r: Exchange<()>)
    requires
        at <= answers@.len(),
    ensures
        r@ == set_logo_power_turn(seqs(answers@), at as int, mode),
        r.within(at as int, answers@.len() as int),
{
    match mode {
        LogoMode::Off => send_command(answers, at, SET_LOGO_POWER, vec![1u8, 4, 0]),
        LogoMode::Static | LogoMode::Breathing => send_command(
            answers,
            at,
            SET_LOGO_POWER,
            vec![1u8, 4, 1],
        ),
    }
}

/// Selects the logo's pattern (for a lit logo only).
fn set_logo_mode_internal(answers: &Vec<Vec<u8>>, mode: LogoMode) -> (r: Exchange<()>)
    requires
        mode != LogoMode::Off,
    ensures
        r@ == echo_turn(seqs(answers@), 0, SET_LOGO_MODE, seq![1u8, 4, logo_pattern(mode)]),
        r.within(0, answers@.len() as int),
{
    if mode == LogoMode::Breathing {
        send_command(answers, 0, SET_LOGO_MODE, vec![1u8, 4, 2])
    } else {
        send_command(answers, 0, SET_LOGO_MODE, vec![1u8, 4, 0])
    }
}

/// `Off` switches the power off; a lit mode programs the pattern first and
/// then switches the power on.
pub open spec fn set_logo_turn(h: Seq<Seq<u8>>, mode: LogoMode) -> Turn<()> {
    if mode == LogoMode::Off {
        set_logo_power_turn(h, 0, mode)
    } else {
        match echo_turn(h, 0, SET_LOGO_MODE, seq![1u8, 4, logo_pattern(mode)]) {
            Turn::Done(Ok(()), n) => set_logo_power_turn(h, n, mode),
            other => other,
        }
    }
}

/// Sets the lid logo mode.
pub fn set_logo_mode(answers: &Vec<Vec<u8>>, mode: LogoMode) -> (r: Exchange<()>)
    ensures
        r@ == set_logo_turn(seqs(answers@), mode),
        r.within(0, answers@.len() as int),
{
    if mode == LogoMode::Off {
        return set_logo_power(answers, 0, mode);
    }
    match set_logo_mode_internal(answers, mode) {
        Exchange::Done(Ok(()), n) => set_logo_power(answers, n, mode),
        other => other,
    }
}

/// Reads the logo's power from byte 2: 0 off, 1 on.
pub open spec fn get_logo_power_turn(h: Seq<Seq<u8>>) -> Turn<bool> {
    if h.len() == 0 {
        Turn::Send(GET_LOGO_POWER, seq![1u8, 4, 0])
    } else if h[0].len() < 3 {
        Turn::Done(too_short(h[0], 3), 1)
    } else if h[0][2] == 0 {
        Turn::Done(Ok(false), 1)
    } else if h[0][2] == 1 {
        Turn::Done(Ok(true), 1)
    } else {
        Turn::Done(Err(RazerError::InvalidValue { value: h[0][2], target: LOGO_MODE_NAME }), 1)
    }
}

fn get_logo_power(answers: &Vec<Vec<u8>>) -> (r: Exchange<bool>)
    ensures
        r@ == get_logo_power_turn(seqs(answers@)),
        r.within(0, answers@.len() as int),
{
    if answers.len() == 0 {
        return Exchange::Send(Request { command: GET_LOGO_POWER, args: vec![1u8, 4, 0] });
    }
    if answers[0].len() < 3 {
        return Exchange::Done(
            Err(RazerError::InvalidDataSize { expected: 3, actual: answers[0].len() }),
            1,
        );
    }
    match answers[0][2] {
        0 => Exchange::Done(Ok(false), 1),
        1 => Exchange::Done(Ok(true), 1),
        v => Exchange::Done(Err(RazerError::InvalidValue { value: v, target: LOGO_MODE_NAME }), 1),
    }
}

/// Reads the logo's pattern from byte 2: 0 Static, 2 Breathing.
pub open spec fn get_logo_pattern_turn(h: Seq<Seq<u8>>, at: int) -> Turn<LogoMode> {
    if at >= h.len() {
        Turn::Send(GET_LOGO_MODE, seq![1u8, 4, 0])
    } else if h[at].len() < 3 {
        Turn::Done(too_short(h[at], 3), at + 1)
    } else if h[at][2] == 0 {
        Turn::Done(Ok(LogoMode::Static), at + 1)
    } else if h[at][2] == 2 {
        Turn::Done(Ok(LogoMode::Breathing), at + 1)
    } else {
        Turn::Done(Err(RazerError::InvalidValue { value: h[at][2], target: LOGO_MODE_NAME }), at + 1)
    }
}

fn get_logo_mode_internal(answers: &Vec<Vec<u8>>, at: usize) -> (r: Exchange<LogoMode>)
    requires
        at <= answers@.len(),
    ensures
        r@ == get_logo_pattern_turn(seqs(answers@), at as int),
        r.within(at as int, answers@.len() as int),
{
    if at >= answers.len() {
        return Exchange::Send(Request { command: GET_LOGO_MODE, args: vec![1u8, 4, 0] });
    }
    if answers[at].len() < 3 {
        return Exchange::Done(
            Err(RazerError::InvalidDataSize { expected: 3, actual: answers[at].len() }),
            at + 1,
        );
    }
    match answers[at][2] {
        0 => Exchange::Done(Ok(LogoMode::Static), at + 1),
        2 => Exchange::Done(Ok(LogoMode::Breathing), at + 1),
        v => Exchange::Done(
            Err(RazerError::InvalidValue { value: v, target: LOGO_MODE_NAME }),
            at + 1,
        ),
    }
}

/// Reads the power first; only a lit logo has its pattern read.
pub open spec fn get_logo_turn(h: Seq<Seq<u8>>) -> Turn<LogoMode> {
    match get_logo_power_turn(h) {
        Turn::Send(c, a) => Turn::Send(c, a),
        Turn::Done(Err(e), n) => Turn::Done(Err(e), n),
        Turn::Done(Ok(true), n) => get_logo_pattern_turn(h, n),
        Turn::Done(Ok(false), n) => Turn::Done(Ok(LogoMode::Off), n),
    }
}

/// Reads the lid logo mode.
pub fn get_logo_mode(answers: &Vec<Vec<u8>>) -> (r: Exchange<LogoMode>)
    ensures
        r@ == get_logo_turn(seqs(answers@)),
        r.within(0, answers@.len() as int),
{
    match get_logo_power(answers) {
        Exchange::Send(req) => Exchange::Send(req),
        Exchange::Done(Err(e), n) => Exchange::Done(Err(e), n),
        Exchange::Done(Ok(true), n) => get_logo_mode_internal(answers, n),
        Exchange::Done(Ok(false), n) => Exchange::Done(Ok(LogoMode::Off), n),
    }
}

// ------------------------------------------------------------------ keyboard

/// Reads the keyboard brightness from byte 2; byte 1 must be 5.
pub open spec fn get_keyboard_turn(h: Seq<Seq<u8>>) -> Turn<u8> {
    if h.len() == 0 {
        Turn::Send(GET_KBD_BRIGHTNESS, seq![1u8, 5, 0])
    } else if h[0].len() < 3 {
        Turn::Done(too_short(h[0], 3), 1)
    } else if h[0][1] != 5 {
        Turn::Done(Err(RazerError::ResponseMismatch), 1)
    } else {
        Turn::Done(Ok(h[0][2]), 1)
    }
}

/// Reads the keyboard backlight brightness.
pub fn get_keyboard_brightness(answers: &Vec<Vec<u8>>) -> (r: Exchange<u8>)
    ensures
        r@ == get_keyboard_turn(seqs(answers@)),
        r.within(0, answers@.len() as int),
{
    if answers.len() == 0 {
        Exchange::Send(Request { command: GET_KBD_BRIGHTNESS, args: vec![1u8, 5, 0] })
    } else if answers[0].len() < 3 {
        Exchange::Done(Err(RazerError::InvalidDataSize { expected: 3, actual: answers[0].len() }), 1)
    } else if answers[0][1] != 5 {
        Exchange::Done(Err(RazerError::ResponseMismatch), 1)
    } else {
        Exchange::Done(Ok(answers[0][2]), 1)
    }
}

/// Sets the keyboard backlight brightness.
pub fn set_keyboard_brightness(answers: &Vec<Vec<u8>>, brightness: u8) -> (r: Exchange<()>)
    ensures
        r@ == echo_turn(seqs(answers@), 0, SET_KBD_BRIGHTNESS, seq![1u8, 5, brightness]),
        r.within(0, answers@.len() as int),
{
    send_command(answers, 0, SET_KBD_BRIGHTNESS, vec![1u8, 5, brightness])
}

// ---------------------------------------------------------- lights always on

/// Reads the lights-always-on switch from byte 0.
pub open spec fn get_lights_turn(h: Seq<Seq<u8>>) -> Turn<LightsAlwaysOn> {
    if h.len() == 0 {
        Turn::Send(GET_LIGHTS_ALWAYS_ON, seq![0u8, 0])
    } else if h[0].len() < 1 {
        Turn::Done(too_short(h[0], 1), 1)
    } else {
        Turn::Done(LightsAlwaysOn::decode(h[0][0]), 1)
    }
}

/// Reads whether the lights stay on while the lid is closed.
pub fn get_lights_always_on(answers: &Vec<Vec<u8>>) -> (r: Exchange<LightsAlwaysOn>)
    ensures
        r@ == get_lights_turn(seqs(answers@)),
        r.within(0, answers@.len() as int),
{
    if answers.len() == 0 {
        Exchange::Send(Request { command: GET_LIGHTS_ALWAYS_ON, args: vec![0u8, 0] })
    } else if answers[0].len() < 1 {
        Exchange::Done(Err(RazerError::InvalidDataSize { expected: 1, actual: answers[0].len() }), 1)
    } else {
        Exchange::Done(LightsAlwaysOn::try_from(answers[0][0]), 1)
    }
}

/// Sets whether the lights stay on while the lid is closed.
pub fn set_lights_always_on(answers: &Vec<Vec<u8>>, lights_always_on: LightsAlwaysOn) -> (r: Exchange<()>)
    ensures
        r@ == echo_turn(seqs(answers@), 0, SET_LIGHTS_ALWAYS_ON, seq![lights_always_on.byte(), 0u8]),
        r.within(0, answers@.len() as int),
{
    send_command(answers, 0, SET_LIGHTS_ALWAYS_ON, vec![lights_always_on.to_byte(), 0u8])
}

// -------------------------------------------------------------- battery care

/// Reads the battery-care switch from byte 0.
pub open spec fn get_battery_care_turn(h: Seq<Seq<u8>>) -> Turn<BatteryCare> {
    if h.len() == 0 {
        Turn::Send(GET_BATTERY_CARE, seq![0u8])
    } else if h[0].len() < 1 {
        Turn::Done(too_short(h[0], 1), 1)
    } else {
        Turn::Done(BatteryCare::decode(h[0][0]), 1)
    }
}

/// Reads the battery-care mode.
pub fn get_battery_care(answers: &Vec<Vec<u8>>) -> (r: Exchange<BatteryCare>)
    ensures
        r@ == get_battery_care_turn(seqs(answers@)),
        r.within(0, answers@.len() as int),
{
    if answers.len() == 0 {
        let args = vec![0u8];
        assert(args@ =~= seq![0u8]);
        Exchange::Send(Request { command: GET_BATTERY_CARE, args })
    } else if answers[0].len() < 1 {
        Exchange::Done(Err(RazerError::InvalidDataSize { expected: 1, actual: answers[0].len() }), 1)
    } else {
        Exchange::Done(BatteryCare::try_from(answers[0][0]), 1)
    }
}

/// Sets the battery-care mode.
pub fn set_battery_care(answers: &Vec<Vec<u8>>, mode: BatteryCare) -> (r: Exchange<()>)
    ensures
        r@ == echo_turn(seqs(answers@), 0, SET_BATTERY_CARE, seq![mode.byte()]),
        r.within(0, answers@.len() as int),
{
    let args = vec![mode.to_byte()];
    assert(args@ =~= seq![mode.byte()]);
    send_command(answers, 0, SET_BATTERY_CARE, args)
}

// ---------------------------------------------------------------------- laws

/// Changing a boost level while the modes read back are anything but Custom
/// with automatic fans fails with `PreconditionFailed` as soon as the read
/// is done: no further command is sent.
pub proof fn lemma_boost_requires_custom_auto(
    h: Seq<Seq<u8>>,
    cluster: Cluster,
    boost: u8,
    modes: (PerfMode, FanMode),
    n: int,
)
    requires
        perf_turn(h, 0) == Turn::<(PerfMode, FanMode)>::Done(Ok(modes), n),
        modes != (PerfMode::Custom, FanMode::Auto),
    ensures
        set_boost_turn(h, 0, cluster, boost) == Turn::<()>::Done(
            Err(RazerError::PreconditionFailed(Precondition::RequiresCustomAuto)),
            n,
        ),
{
}

/// Manual fan control outside Balanced mode fails with `PreconditionFailed`
/// before any exchange.
pub proof fn lemma_manual_fan_only_in_balanced(h: Seq<Seq<u8>>, at: int, perf: PerfMode)
    requires
        perf != PerfMode::Balanced,
    ensures
        set_modes_turn(h, at, perf, FanMode::Manual) == Turn::<()>::Done(
            Err(RazerError::PreconditionFailed(Precondition::ManualFanRequiresBalanced)),
            at,
        ),
{
}

/// A fan speed below 2000 or above 5000 RPM fails with `PreconditionFailed`
/// before any exchange, whatever the device would answer.
pub proof fn lemma_fan_rpm_out_of_range(h: Seq<Seq<u8>>, rpm: u16)
    requires
        rpm < 2000 || rpm > 5000,
    ensures
        set_fan_rpm_turn(h, 0, rpm) == Turn::<()>::Done(
            Err(RazerError::PreconditionFailed(Precondition::RpmOutOfRange)),
            0,
        ),
{
}

/// With Balanced mode and manual fans read back, setting a fan speed sends
/// `0x0d01` with `[0, 1, rpm / 100]` and then with `[0, 2, rpm / 100]`, and
/// succeeds when both are echoed.
pub proof fn lemma_fan_rpm_writes_both_fans(h: Seq<Seq<u8>>, rpm: u16, n: int)
    requires
        2000 <= rpm <= 5000,
        perf_turn(h, 0) == Turn::<(PerfMode, FanMode)>::Done(
            Ok((PerfMode::Balanced, FanMode::Manual)),
            n,
        ),
    ensures
        h.len() == n ==> set_fan_rpm_turn(h, 0, rpm) == Turn::<()>::Send(
            0x0d01,
            seq![0u8, 1, (rpm / 100) as u8],
        ),
        h.len() == n + 1 && echoes(h[n], seq![0u8, 1, (rpm / 100) as u8]) ==> set_fan_rpm_turn(
            h,
            0,
            rpm,
        ) == Turn::<()>::Send(0x0d01, seq![0u8, 2, (rpm / 100) as u8]),
        h.len() >= n + 2 && echoes(h[n], seq![0u8, 1, (rpm / 100) as u8]) && echoes(
            h[n + 1],
            seq![0u8, 2, (rpm / 100) as u8],
        ) ==> set_fan_rpm_turn(h, 0, rpm) == Turn::<()>::Done(Ok(()), n + 2),
{
}

/// Setting the Breathing logo sends `0x0302` with `[1, 4, 2]`, then
/// `0x0300` with `[1, 4, 1]`, and succeeds when both are echoed.
pub proof fn lemma_logo_breathing_order(h: Seq<Seq<u8>>)
    ensures
        h.len() == 0 ==> set_logo_turn(h, LogoMode::Breathing) == Turn::<()>::Send(
            0x0302,
            seq![1u8, 4, 2],
        ),
        h.len() == 1 && echoes(h[0], seq![1u8, 4, 2]) ==> set_logo_turn(h, LogoMode::Breathing)
            == Turn::<()>::Send(0x0300, seq![1u8, 4, 1]),
        h.len() >= 2 && echoes(h[0], seq![1u8, 4, 2]) && echoes(h[1], seq![1u8, 4, 1])
            ==> set_logo_turn(h, LogoMode::Breathing) == Turn::<()>::Done(Ok(()), 2),
{
}

/// Switching the logo off sends exactly one packet, `0x0300` with
/// `[1, 4, 0]`.
pub proof fn lemma_logo_off_single_packet(h: Seq<Seq<u8>>)
    ensures
        h.len() == 0 ==> set_logo_turn(h, LogoMode::Off) == Turn::<()>::Send(
            0x0300,
            seq![1u8, 4, 0],
        ),
        h.len() >= 1 ==> set_logo_turn(h, LogoMode::Off) is Done && set_logo_turn(
            h,
            LogoMode::Off,
        )->Done_1 == 1,
{
}

} // verus!
