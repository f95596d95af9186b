use librazer::error::RazerError;
use librazer::packet::Packet;

#[test]
fn test_packet_size() {
    assert_eq!(std::mem::size_of::<Packet>(), 90);
}

#[test]
fn test_packet_new_sets_command() {
    let packet = Packet::new(0x0d02, &[0x01, 0x02]).unwrap();
    assert_eq!(packet.command_class, 0x0d);
    assert_eq!(packet.command_id, 0x02);
    assert_eq!(packet.data_size, 2);
}

#[test]
fn test_packet_get_args_returns_valid_slice() {
    let packet = Packet::new(0x0d02, &[0x01, 0x02, 0x03]).unwrap();
    let args = packet.get_args();
    assert_eq!(args.len(), 3);
    assert_eq!(args, &[0x01, 0x02, 0x03]);
}

#[test]
fn test_packet_serialization_roundtrip() {
    let original = Packet::new(0x0d02, &[0x01, 0x02, 0x03, 0x04]).unwrap();
    let bytes: Vec<u8> = original.to_bytes();
    assert_eq!(bytes.len(), 90);

    let restored = Packet::try_from(bytes.as_slice()).unwrap();
    assert_eq!(restored.command_class, original.command_class);
    assert_eq!(restored.command_id, original.command_id);
    assert_eq!(restored.data_size, original.data_size);
    assert_eq!(restored.get_args(), original.get_args());
}

#[test]
fn test_packet_crc_calculation() {
    let packet = Packet::new(0x0d02, &[0x01, 0x02]).unwrap();
    // CRC should be non-zero for non-trivial packets
    assert_ne!(packet.crc, 0);
}

#[test]
fn test_packet_try_from_invalid_size() {
    let short_data = vec![0u8; 50];
    assert!(Packet::try_from(short_data.as_slice()).is_err());
}

#[test]
fn new_packet_layout_is_exact() {
    let packet = Packet::new(0x0d82, &[0, 1, 0, 0]).unwrap();
    let bytes = packet.to_bytes();
    assert_eq!(bytes[0], 0x00);
    assert_eq!(bytes[1], packet.id);
    assert_eq!(&bytes[2..8], &[0, 0, 0, 4, 0x0d, 0x82]);
    assert_eq!(&bytes[8..12], &[0, 1, 0, 0]);
    assert!(bytes[12..88].iter().all(|b| *b == 0));
    assert_eq!(bytes[88], 4 ^ 0x0d ^ 0x82 ^ 1);
    assert_eq!(bytes[89], 0);
}

#[test]
fn crc_is_xor_of_bytes_two_to_eighty_eight() {
    for args in [vec![], vec![0xffu8; 80], vec![7u8, 9, 200, 13, 1]] {
        let packet = Packet::new(0x0712, &args).unwrap();
        let bytes = packet.to_bytes();
        let xor = bytes[2..88].iter().fold(0u8, |acc, b| acc ^ b);
        assert_eq!(packet.crc, xor);
        assert_eq!(packet.calculate_crc(), xor);
        assert_eq!(bytes[88], xor);
    }
}

#[test]
fn round_trip_keeps_command_size_and_args() {
    for len in [0usize, 1, 4, 79, 80] {
        let args: Vec<u8> = (0..len).map(|i| (i * 3 + 1) as u8).collect();
        let packet = Packet::new(0xabcd, &args).unwrap();
        let bytes = packet.to_bytes();
        assert_eq!(bytes.len(), 90);
        let back = Packet::from_bytes(&bytes).unwrap();
        assert_eq!(back.command_class, 0xab);
        assert_eq!(back.command_id, 0xcd);
        assert_eq!(back.data_size as usize, len);
        assert_eq!(back.get_args(), args.as_slice());
        assert_eq!(back.to_bytes(), bytes);
    }
}

#[test]
fn new_refuses_more_than_eighty_args() {
    let err = Packet::new(0x0d02, &[0u8; 81]).unwrap_err();
    assert_eq!(err, RazerError::InvalidDataSize { expected: 80, actual: 81 });
}

#[test]
fn from_bytes_refuses_wrong_length_and_oversized_data() {
    assert_eq!(
        Packet::from_bytes(&[0u8; 91]).unwrap_err(),
        RazerError::InvalidDataSize { expected: 90, actual: 91 }
    );
    let mut bytes = vec![0u8; 90];
    bytes[5] = 81;
    assert_eq!(
        Packet::from_bytes(&bytes).unwrap_err(),
        RazerError::InvalidDataSize { expected: 80, actual: 81 }
    );
}

#[test]
fn report_frame_has_leading_zero() {
    let packet = Packet::new(0x0383, &[1, 5, 0]).unwrap();
    let report = packet.to_report();
    assert_eq!(report.len(), 91);
    assert_eq!(report[0], 0);
    assert_eq!(&report[1..], packet.to_bytes().as_slice());
}

fn response_to(request: &Packet, status: u8) -> Packet {
    let mut bytes = request.to_bytes();
    bytes[0] = status;
    Packet::from_bytes(&bytes).unwrap()
}

#[test]
fn response_with_other_id_is_a_mismatch() {
    let request = Packet::new(0x0d82, &[0, 1, 0, 0]).unwrap();
    let mut response = response_to(&request, 0x02);
    response.id = request.id.wrapping_add(1);
    assert_eq!(response.ensure_matches_report(&request).unwrap_err(), RazerError::ResponseMismatch);
}

#[test]
fn response_with_other_command_is_a_mismatch() {
    let request = Packet::new(0x0d82, &[0, 1, 0, 0]).unwrap();
    let mut response = response_to(&request, 0x02);
    response.command_id = 0x83;
    assert_eq!(response.ensure_matches_report(&request).unwrap_err(), RazerError::ResponseMismatch);
}

#[test]
fn status_bytes_decode_to_their_errors() {
    let request = Packet::new(0x0d82, &[0, 1, 0, 0]).unwrap();
    let cases = [
        (0x05u8, RazerError::CommandNotSupported),
        (0x01, RazerError::DeviceBusy),
        (0x03, RazerError::CommandFailed),
        (0x04, RazerError::CommandTimeout),
        (0x00, RazerError::UnknownStatus(0x00)),
        (0x77, RazerError::UnknownStatus(0x77)),
    ];
    for (status, expected) in cases {
        assert_eq!(response_to(&request, status).ensure_matches_report(&request).unwrap_err(), expected);
    }
    let ok = response_to(&request, 0x02).ensure_matches_report(&request).unwrap();
    assert_eq!(ok.get_args(), &[0, 1, 0, 0]);
}

#[test]
fn remaining_packets_mismatch_tolerated_only_for_two_reads() {
    for (command, tolerated) in [(0x0d82u16, false), (0x0792, true), (0x078f, true), (0x0712, false)] {
        let request = Packet::new(command, &[0]).unwrap();
        let mut response = response_to(&request, 0x02);
        response.remaining_packets = 1;
        let result = response.ensure_matches_report(&request);
        if tolerated {
            assert!(result.is_ok());
        } else {
            assert_eq!(result.unwrap_err(), RazerError::ResponseMismatch);
        }
    }
}
