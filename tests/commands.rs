use librazer::command::{
    custom_command, get_battery_care, get_cpu_boost, get_fan_rpm, get_gpu_boost,
    get_keyboard_brightness, get_lights_always_on, get_logo_mode, get_max_fan_speed_mode,
    get_perf_mode, set_battery_care, set_cpu_boost, set_fan_mode, set_fan_rpm, set_gpu_boost,
    set_keyboard_brightness, set_lights_always_on, set_logo_mode, set_max_fan_speed_mode,
    set_perf_mode, Exchange,
};
use librazer::device::read_response;
use librazer::error::{Precondition, RazerError};
use librazer::packet::Packet;
use librazer::types::{
    BatteryCare, CpuBoost, FanMode, FanZone, GpuBoost, LightsAlwaysOn, LogoMode, MaxFanSpeedMode,
    PerfMode,
};

/// What the scripted device answers to one request.
enum Reply {
    /// Success, echoing the request's arguments.
    Echo,
    /// Success with these arguments.
    Args(Vec<u8>),
    /// Success with these arguments and another `remaining_packets`.
    Remaining(u16, Vec<u8>),
    /// The request echoed back with this status.
    Status(u8),
    /// Success, but under another transaction id.
    OtherId,
}

type Sent = Vec<(u16, Vec<u8>)>;

/// Runs an operation against a scripted device: each request becomes a real
/// packet and feature report, each reply a report checked by
/// `read_response`.
fn drive<T>(plan: impl Fn(&Vec<Vec<u8>>) -> Exchange<T>, replies: Vec<Reply>) -> (Result<T, RazerError>, Sent) {
    let mut answers: Vec<Vec<u8>> = Vec::new();
    let mut sent: Sent = Vec::new();
    let mut replies = replies.into_iter();
    loop {
        match plan(&answers) {
            Exchange::Done(result, used) => {
                assert_eq!(used, answers.len());
                return (result, sent);
            }
            Exchange::Send(req) => {
                sent.push((req.command, req.args.clone()));
                let request = Packet::new(req.command, &req.args).unwrap();
                let report = request.to_report();
                assert_eq!(report.len(), 91);
                let mut bytes = request.to_bytes();
                bytes[0] = 0x02;
                let set_args = |bytes: &mut Vec<u8>, args: &[u8]| {
                    bytes[5] = args.len() as u8;
                    for b in bytes[8..88].iter_mut() {
                        *b = 0;
                    }
                    bytes[8..8 + args.len()].copy_from_slice(args);
                };
                match replies.next().expect("no scripted reply left") {
                    Reply::Echo => {}
                    Reply::Args(a) => set_args(&mut bytes, &a),
                    Reply::Remaining(r, a) => {
                        bytes[2..4].copy_from_slice(&r.to_le_bytes());
                        set_args(&mut bytes, &a);
                    }
                    Reply::Status(s) => bytes[0] = s,
                    Reply::OtherId => bytes[1] = bytes[1].wrapping_add(1),
                }
                let mut buf = vec![0u8];
                buf.extend_from_slice(&bytes);
                match read_response(&request, &buf, 91) {
                    Err(e) => return (Err(e), sent),
                    Ok(p) => answers.push(p.get_args().to_vec()),
                }
            }
        }
    }
}

fn modes(perf: u8, fan: u8) -> Vec<Reply> {
    vec![Reply::Args(vec![0, 1, perf, fan]), Reply::Args(vec![0, 2, perf, fan])]
}

fn probes() -> Sent {
    vec![(0x0d82, vec![0, 1, 0, 0]), (0x0d82, vec![0, 2, 0, 0])]
}

#[test]
fn perf_round_trip() {
    let (result, sent) = drive(get_perf_mode, modes(0, 0));
    assert_eq!(result, Ok((PerfMode::Balanced, FanMode::Auto)));
    assert_eq!(sent, probes());
}

#[test]
fn perf_zone_disagreement() {
    let replies = vec![Reply::Args(vec![0, 1, 0, 0]), Reply::Args(vec![0, 2, 5, 0])];
    let (result, _) = drive(get_perf_mode, replies);
    assert_eq!(result, Err(RazerError::PreconditionFailed(Precondition::ModesDisagree)));
}

#[test]
fn perf_read_with_undecodable_byte() {
    let (result, sent) = drive(get_perf_mode, vec![Reply::Args(vec![0, 1, 9, 0])]);
    assert_eq!(result, Err(RazerError::InvalidValue { value: 9, target: "PerfMode" }));
    assert_eq!(sent.len(), 1);
    let (result, _) = drive(get_perf_mode, vec![Reply::Args(vec![0, 1])]);
    assert_eq!(result, Err(RazerError::InvalidDataSize { expected: 4, actual: 2 }));
}

#[test]
fn logo_round_trip() {
    let (result, sent) = drive(|h| set_logo_mode(h, LogoMode::Static), vec![Reply::Echo, Reply::Echo]);
    assert_eq!(result, Ok(()));
    assert_eq!(sent, vec![(0x0302, vec![1, 4, 0]), (0x0300, vec![1, 4, 1])]);
}

#[test]
fn logo_breathing_programs_pattern_then_power() {
    let (result, sent) = drive(|h| set_logo_mode(h, LogoMode::Breathing), vec![Reply::Echo, Reply::Echo]);
    assert_eq!(result, Ok(()));
    assert_eq!(sent, vec![(0x0302, vec![1, 4, 2]), (0x0300, vec![1, 4, 1])]);
}

#[test]
fn logo_off_sends_one_packet() {
    let (result, sent) = drive(|h| set_logo_mode(h, LogoMode::Off), vec![Reply::Echo]);
    assert_eq!(result, Ok(()));
    assert_eq!(sent, vec![(0x0300, vec![1, 4, 0])]);
}

#[test]
fn fan_rpm_precondition() {
    let (result, sent) = drive(|h| set_fan_rpm(h, 3000), modes(4, 0));
    assert_eq!(result, Err(RazerError::PreconditionFailed(Precondition::RequiresBalancedManual)));
    assert_eq!(sent, probes());
}

#[test]
fn fan_rpm_out_of_range_sends_nothing() {
    for rpm in [1999u16, 5001, 0, 65535] {
        let (result, sent) = drive(|h| set_fan_rpm(h, rpm), vec![]);
        assert_eq!(result, Err(RazerError::PreconditionFailed(Precondition::RpmOutOfRange)));
        assert!(sent.is_empty());
    }
}

#[test]
fn fan_rpm_writes_both_fans_in_order() {
    let mut replies = modes(0, 1);
    replies.push(Reply::Echo);
    replies.push(Reply::Echo);
    let (result, sent) = drive(|h| set_fan_rpm(h, 2500), replies);
    assert_eq!(result, Ok(()));
    assert_eq!(sent[2..], [(0x0d01, vec![0, 1, 25]), (0x0d01, vec![0, 2, 25])]);
    assert_eq!(sent.len(), 4);
}

#[test]
fn fan_rpm_edges_are_accepted() {
    for (rpm, byte) in [(2000u16, 20u8), (5000, 50), (2099, 20)] {
        let mut replies = modes(0, 1);
        replies.push(Reply::Echo);
        replies.push(Reply::Echo);
        let (result, sent) = drive(|h| set_fan_rpm(h, rpm), replies);
        assert_eq!(result, Ok(()));
        assert_eq!(sent[3], (0x0d01, vec![0, 2, byte]));
    }
}

#[test]
fn cpu_boost_needs_custom_auto() {
    for (perf, fan) in [(0u8, 0u8), (5, 0), (0, 1)] {
        let (result, sent) = drive(|h| set_cpu_boost(h, CpuBoost::High), modes(perf, fan));
        assert_eq!(result, Err(RazerError::PreconditionFailed(Precondition::RequiresCustomAuto)));
        assert_eq!(sent, probes());
    }
}

#[test]
fn boost_set_in_custom_mode() {
    let mut replies = modes(4, 0);
    replies.push(Reply::Echo);
    let (result, sent) = drive(|h| set_cpu_boost(h, CpuBoost::Overclock), replies);
    assert_eq!(result, Ok(()));
    assert_eq!(sent[2], (0x0d07, vec![0, 1, 4]));
    let mut replies = modes(4, 0);
    replies.push(Reply::Args(vec![0, 2, 1]));
    let (result, sent) = drive(|h| set_gpu_boost(h, GpuBoost::High), replies);
    assert_eq!(result, Err(RazerError::ResponseMismatch));
    assert_eq!(sent[2], (0x0d07, vec![0, 2, 2]));
}

#[test]
fn boost_reads_check_the_cluster() {
    let (result, sent) = drive(get_cpu_boost, vec![Reply::Args(vec![0, 1, 3])]);
    assert_eq!(result, Ok(CpuBoost::Boost));
    assert_eq!(sent, vec![(0x0d87, vec![0, 1, 0])]);
    let (result, _) = drive(get_gpu_boost, vec![Reply::Args(vec![0, 1, 1])]);
    assert_eq!(result, Err(RazerError::ResponseMismatch));
    let (result, _) = drive(get_gpu_boost, vec![Reply::Args(vec![0, 2, 7])]);
    assert_eq!(result, Err(RazerError::InvalidValue { value: 7, target: "GpuBoost" }));
    let (result, _) = drive(get_cpu_boost, vec![Reply::Args(vec![0, 1])]);
    assert_eq!(result, Err(RazerError::InvalidDataSize { expected: 3, actual: 2 }));
}

#[test]
fn fan_rpm_read_scales_by_one_hundred() {
    let (result, sent) = drive(|h| get_fan_rpm(h, FanZone::Zone2), vec![Reply::Args(vec![0, 2, 35])]);
    assert_eq!(result, Ok(3500));
    assert_eq!(sent, vec![(0x0d81, vec![0, 2, 0])]);
    let (result, _) = drive(|h| get_fan_rpm(h, FanZone::Zone1), vec![Reply::Args(vec![0, 2, 35])]);
    assert_eq!(result, Err(RazerError::ResponseMismatch));
}

#[test]
fn perf_mode_written_to_both_zones_with_auto_fans() {
    let (result, sent) = drive(|h| set_perf_mode(h, PerfMode::Silent), vec![Reply::Echo, Reply::Echo]);
    assert_eq!(result, Ok(()));
    assert_eq!(sent, vec![(0x0d02, vec![1, 1, 5, 0]), (0x0d02, vec![1, 2, 5, 0])]);
}

#[test]
fn fan_mode_needs_balanced() {
    let mut replies = modes(0, 0);
    replies.push(Reply::Echo);
    replies.push(Reply::Echo);
    let (result, sent) = drive(|h| set_fan_mode(h, FanMode::Manual), replies);
    assert_eq!(result, Ok(()));
    assert_eq!(sent[2..], [(0x0d02, vec![1, 1, 0, 1]), (0x0d02, vec![1, 2, 0, 1])]);
    let (result, sent) = drive(|h| set_fan_mode(h, FanMode::Manual), modes(5, 0));
    assert_eq!(result, Err(RazerError::PreconditionFailed(Precondition::RequiresBalanced)));
    assert_eq!(sent.len(), 2);
}

#[test]
fn max_fan_speed_needs_custom() {
    let mut replies = modes(4, 0);
    replies.push(Reply::Echo);
    let (result, sent) = drive(|h| set_max_fan_speed_mode(h, MaxFanSpeedMode::Enable), replies);
    assert_eq!(result, Ok(()));
    assert_eq!(sent[2], (0x070f, vec![2]));
    let (result, _) = drive(|h| set_max_fan_speed_mode(h, MaxFanSpeedMode::Enable), modes(0, 0));
    assert_eq!(result, Err(RazerError::PreconditionFailed(Precondition::RequiresCustom)));
}

#[test]
fn battery_care_read_with_remaining_packets_quirk() {
    let (result, sent) = drive(get_battery_care, vec![Reply::Remaining(1, vec![0xd0])]);
    assert_eq!(result, Ok(BatteryCare::Enable));
    assert_eq!(sent, vec![(0x0792, vec![0])]);
}

#[test]
fn max_fan_speed_read_with_remaining_packets_quirk() {
    let (result, sent) = drive(get_max_fan_speed_mode, vec![Reply::Remaining(3, vec![0x02])]);
    assert_eq!(result, Ok(MaxFanSpeedMode::Enable));
    assert_eq!(sent, vec![(0x078f, vec![0])]);
}

#[test]
fn remaining_packets_mismatch_elsewhere_is_refused() {
    let (result, _) = drive(get_perf_mode, vec![Reply::Remaining(1, vec![0, 1, 0, 0])]);
    assert_eq!(result, Err(RazerError::ResponseMismatch));
}

#[test]
fn response_under_other_id_is_refused() {
    let (result, sent) = drive(get_perf_mode, vec![Reply::OtherId]);
    assert_eq!(result, Err(RazerError::ResponseMismatch));
    assert_eq!(sent.len(), 1);
}

#[test]
fn not_supported_status_is_reported() {
    let (result, _) = drive(get_battery_care, vec![Reply::Status(0x05)]);
    assert_eq!(result, Err(RazerError::CommandNotSupported));
    let (result, _) = drive(get_battery_care, vec![Reply::Status(0x01)]);
    assert_eq!(result, Err(RazerError::DeviceBusy));
}

#[test]
fn keyboard_brightness_read_and_write() {
    let (result, sent) = drive(get_keyboard_brightness, vec![Reply::Args(vec![1, 5, 200])]);
    assert_eq!(result, Ok(200));
    assert_eq!(sent, vec![(0x0383, vec![1, 5, 0])]);
    let (result, _) = drive(get_keyboard_brightness, vec![Reply::Args(vec![1, 4, 200])]);
    assert_eq!(result, Err(RazerError::ResponseMismatch));
    let (result, sent) = drive(|h| set_keyboard_brightness(h, 128), vec![Reply::Echo]);
    assert_eq!(result, Ok(()));
    assert_eq!(sent, vec![(0x0303, vec![1, 5, 128])]);
    let (result, _) = drive(|h| set_keyboard_brightness(h, 128), vec![Reply::Args(vec![1, 5, 127])]);
    assert_eq!(result, Err(RazerError::ResponseMismatch));
}

#[test]
fn lights_always_on_read_and_write() {
    let (result, sent) = drive(get_lights_always_on, vec![Reply::Args(vec![3, 0])]);
    assert_eq!(result, Ok(LightsAlwaysOn::Enable));
    assert_eq!(sent, vec![(0x0084, vec![0, 0])]);
    let (result, sent) = drive(|h| set_lights_always_on(h, LightsAlwaysOn::Disable), vec![Reply::Echo]);
    assert_eq!(result, Ok(()));
    assert_eq!(sent, vec![(0x0004, vec![0, 0])]);
}

#[test]
fn battery_care_write_echo() {
    let (result, sent) = drive(|h| set_battery_care(h, BatteryCare::Enable), vec![Reply::Echo]);
    assert_eq!(result, Ok(()));
    assert_eq!(sent, vec![(0x0712, vec![0xd0])]);
    let (result, _) = drive(|h| set_battery_care(h, BatteryCare::Enable), vec![Reply::Args(vec![0x50])]);
    assert_eq!(result, Err(RazerError::ResponseMismatch));
}

#[test]
fn logo_reads_power_then_pattern() {
    let (result, sent) = drive(get_logo_mode, vec![Reply::Args(vec![1, 4, 1]), Reply::Args(vec![1, 4, 2])]);
    assert_eq!(result, Ok(LogoMode::Breathing));
    assert_eq!(sent, vec![(0x0380, vec![1, 4, 0]), (0x0382, vec![1, 4, 0])]);
    let (result, sent) = drive(get_logo_mode, vec![Reply::Args(vec![1, 4, 0])]);
    assert_eq!(result, Ok(LogoMode::Off));
    assert_eq!(sent.len(), 1);
    let (result, _) = drive(get_logo_mode, vec![Reply::Args(vec![1, 4, 1]), Reply::Args(vec![1, 4, 0])]);
    assert_eq!(result, Ok(LogoMode::Static));
    let (result, _) = drive(get_logo_mode, vec![Reply::Args(vec![1, 4, 7])]);
    assert_eq!(result, Err(RazerError::InvalidValue { value: 7, target: "LogoMode" }));
}

#[test]
fn custom_command_is_sent_verbatim() {
    let (result, sent) = drive(|h| custom_command(h, 0x1234, &[9, 8, 7]), vec![Reply::Args(vec![])]);
    assert_eq!(result, Ok(()));
    assert_eq!(sent, vec![(0x1234, vec![9, 8, 7])]);
    let (result, sent) = drive(|h| custom_command(h, 0x1234, &[0u8; 81]), vec![]);
    assert_eq!(result, Err(RazerError::InvalidDataSize { expected: 80, actual: 81 }));
    assert!(sent.is_empty());
}
