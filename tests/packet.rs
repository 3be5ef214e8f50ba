use std::time::{SystemTime, UNIX_EPOCH};

use sntp_client::packet::{
    decode_reply, encode_request, ntp_to_unix_seconds, read_be_u32, DecodeError, LeapIndicator,
    Mode, NtpTimestamp, SendPacket, Stratum, VersionNumber,
};

fn frame_with_header(header: u8) -> Vec<u8> {
    let mut frame = vec![0u8; 48];
    frame[0] = header;
    frame
}

#[test]
fn test_name() {
    let timestamp = SystemTime::now().duration_since(UNIX_EPOCH).unwrap();
    println!("{:#?}", timestamp.subsec_nanos());
}

#[test]
fn own_request_is_rejected_as_reply() {
    let frame = encode_request();
    assert_eq!(decode_reply(&frame), Err(DecodeError::UnexpectedMode(3)));
}

#[test]
fn request_frame_layout() {
    let frame = encode_request();
    assert_eq!(frame.len(), 48);
    assert_eq!(frame[0], 0b00_100_011);
    assert!(frame[1..].iter().all(|b| *b == 0));
}

#[test]
fn unix_seconds_at_unix_epoch() {
    assert_eq!(ntp_to_unix_seconds(2_208_988_800), 0);
}

#[test]
fn unix_seconds_at_ntp_epoch() {
    assert_eq!(ntp_to_unix_seconds(0), -2_208_988_800);
}

#[test]
fn unix_seconds_at_largest_seconds() {
    assert_eq!(ntp_to_unix_seconds(u32::MAX), 4_294_967_295 - 2_208_988_800);
    assert_eq!(ntp_to_unix_seconds(3_913_056_000), 1_704_067_200);
}

#[test]
fn timestamp_unix_seconds() {
    let ts = NtpTimestamp { seconds: 2_208_988_801, fraction: 0x8000_0000 };
    assert_eq!(ts.unix_seconds(), 1);
}

#[test]
fn decode_rejects_47_bytes() {
    let frame = vec![0x24u8; 47];
    assert_eq!(decode_reply(&frame), Err(DecodeError::MalformedPacket(47)));
}

#[test]
fn decode_rejects_49_bytes() {
    let frame = vec![0x24u8; 49];
    assert_eq!(decode_reply(&frame), Err(DecodeError::MalformedPacket(49)));
}

#[test]
fn decode_rejects_empty() {
    assert_eq!(decode_reply(&[]), Err(DecodeError::MalformedPacket(0)));
}

#[test]
fn decode_rejects_version_3() {
    let frame = frame_with_header(0b00_011_011);
    assert_eq!(decode_reply(&frame), Err(DecodeError::UnsupportedVersion(3)));
}

#[test]
fn decode_checks_version_before_mode() {
    let frame = frame_with_header(0b00_101_011);
    assert_eq!(decode_reply(&frame), Err(DecodeError::UnsupportedVersion(5)));
}

#[test]
fn decode_rejects_client_mode() {
    let frame = frame_with_header(0b00_100_011);
    assert_eq!(decode_reply(&frame), Err(DecodeError::UnexpectedMode(3)));
}

#[test]
fn decode_rejects_private_mode() {
    let frame = frame_with_header(0b11_100_111);
    assert_eq!(decode_reply(&frame), Err(DecodeError::UnexpectedMode(7)));
}

#[test]
fn decode_server_reply() {
    let mut frame = frame_with_header(0b00_100_100);
    frame[40..44].copy_from_slice(&[0x00, 0x00, 0x00, 0x0A]);
    frame[44..48].copy_from_slice(&[0x00, 0x00, 0x00, 0x00]);
    let fields = decode_reply(&frame).unwrap();
    assert_eq!(fields.transmit_timestamp.seconds, 10);
    assert_eq!(fields.transmit_timestamp.fraction, 0);
    assert_eq!(fields.mode, Mode::Server);
    assert_eq!(fields.version_number, VersionNumber(4));
}

#[test]
fn decode_broadcast_reply_echoes_header() {
    let mut frame = frame_with_header(0b11_100_101);
    frame[1] = 2;
    frame[40..44].copy_from_slice(&[0xE9, 0x3C, 0x0A, 0x00]);
    frame[44..48].copy_from_slice(&[0x80, 0x00, 0x00, 0x01]);
    let fields = decode_reply(&frame).unwrap();
    assert_eq!(fields.leap_indicator, LeapIndicator::AlarmCondition);
    assert_eq!(fields.mode, Mode::Broadcast);
    assert_eq!(fields.stratum, Stratum::SecondaryReference(2));
    assert_eq!(fields.transmit_timestamp.seconds, 0xE93C_0A00);
    assert_eq!(fields.transmit_timestamp.fraction, 0x8000_0001);
}

#[test]
fn decode_stratum_kinds() {
    let mut frame = frame_with_header(0b01_100_100);
    frame[1] = 0;
    assert_eq!(decode_reply(&frame).unwrap().stratum, Stratum::KissOfDeath);
    frame[1] = 1;
    assert_eq!(decode_reply(&frame).unwrap().stratum, Stratum::PrimaryReference);
    frame[1] = 15;
    assert_eq!(decode_reply(&frame).unwrap().stratum, Stratum::SecondaryReference(15));
    frame[1] = 16;
    assert_eq!(decode_reply(&frame).unwrap().stratum, Stratum::Reserved(16));
    assert_eq!(decode_reply(&frame).unwrap().leap_indicator, LeapIndicator::LongMinute);
}

#[test]
fn read_be_u32_is_big_endian() {
    let bytes = [0xFFu8, 0x12, 0x34, 0x56, 0x78];
    assert_eq!(read_be_u32(&bytes, 1), 0x1234_5678);
    assert_eq!(read_be_u32(&bytes, 0), 0xFF12_3456);
}

#[test]
fn send_packet_new_is_client_request() {
    let p = SendPacket::new();
    assert_eq!(p.leap_indicator, LeapIndicator::NoWarning);
    assert_eq!(p.version_number, VersionNumber(4));
    assert_eq!(p.mode, Mode::Client);
    assert_eq!(p.stratum, Stratum::SecondaryReference(3));
    assert_eq!(p.originate_timestamp, None);
    assert_eq!(p.recieve_timestamp, None);
    assert_eq!(p.transmit_timestamp, 0);
}

#[test]
fn send_packet_encode_layout() {
    let mut p = SendPacket::new();
    p.leap_indicator = LeapIndicator::ShortMinute;
    p.originate_timestamp = Some(0x0102_0304_0506_0708);
    p.transmit_timestamp = 0xE93C_0A00_8000_0000;
    let frame = p.encode();
    assert_eq!(frame.len(), 48);
    assert_eq!(frame[0], 0b10_100_011);
    assert_eq!(frame[1], 3);
    assert!(frame[2..24].iter().all(|b| *b == 0));
    assert_eq!(&frame[24..32], &[1u8, 2, 3, 4, 5, 6, 7, 8]);
    assert!(frame[32..40].iter().all(|b| *b == 0));
    assert_eq!(&frame[40..48], &[0xE9u8, 0x3C, 0x0A, 0x00, 0x80, 0x00, 0x00, 0x00]);
}

#[test]
fn encoded_server_packet_decodes_back() {
    let mut p = SendPacket::new();
    p.mode = Mode::Server;
    p.stratum = Stratum::PrimaryReference;
    p.transmit_timestamp = 0x0000_000A_0000_0007;
    let fields = decode_reply(&p.encode()).unwrap();
    assert_eq!(fields.mode, Mode::Server);
    assert_eq!(fields.stratum, Stratum::PrimaryReference);
    assert_eq!(fields.transmit_timestamp, NtpTimestamp { seconds: 10, fraction: 7 });
}

#[test]
fn codes_round_trip() {
    for c in 0u8..4 {
        assert_eq!(LeapIndicator::from_code(c).code(), c);
    }
    for c in 0u8..8 {
        assert_eq!(Mode::from_code(c).code(), c);
    }
    for c in 0u8..=255 {
        assert_eq!(Stratum::from_code(c).code(), c);
    }
    assert_eq!(Mode::from_code(5), Mode::Broadcast);
}
