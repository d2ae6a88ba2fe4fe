use driver_station_rs::driverstation::Mode;
use driver_station_rs::error::ProtocolError;
use driver_station_rs::status::{FromRioUdpPacket, StatusHeader, CHAIN_OFFSET, HEADER_LEN};
use driver_station_rs::tags::{DiskInfo, FromRioTag, RamInfo, UnknownTag};

fn quiet_header() -> StatusHeader {
    StatusHeader {
        sequence: 0,
        e_stopped: false,
        brownout: false,
        code_start: false,
        enabled: false,
        mode: Mode::Teleop,
        robot_code: false,
        is_rio: false,
        test: false,
        autonomous: false,
        teleop_code: false,
        disabled: false,
        battery: 0,
        request_date: false,
    }
}

/// A packet of seven header bytes and the given chain.
fn packet(head: [u8; 7], chain: &[u8]) -> Vec<u8> {
    let mut buf = head.to_vec();
    buf.extend_from_slice(chain);
    buf
}

#[test]
fn header_is_eight_bytes_and_chain_starts_at_seven() {
    assert_eq!(HEADER_LEN, 8);
    assert_eq!(CHAIN_OFFSET, 7);
}

#[test]
fn short_buffer_is_malformed() {
    assert_eq!(FromRioUdpPacket::from_packet(&[]), Err(ProtocolError::MalformedPacket));
    assert_eq!(FromRioUdpPacket::from_packet(&[0; 1]), Err(ProtocolError::MalformedPacket));
    assert_eq!(FromRioUdpPacket::from_packet(&[0xff; 7]), Err(ProtocolError::MalformedPacket));
}

#[test]
fn decodes_header_and_records() {
    let buf = packet(
        [0x00, 0x2a, 0x01, 0b1001_0110, 0b0011_0101, 12, 128],
        &[6, 0x04, 0, 0, 0, 5, 3, 0xff, 9],
    );
    let decoded = FromRioUdpPacket::from_packet(&buf).unwrap();
    assert_eq!(
        decoded,
        FromRioUdpPacket {
            header: StatusHeader {
                sequence: 42,
                e_stopped: true,
                brownout: true,
                code_start: false,
                enabled: true,
                mode: Mode::Autonomous,
                robot_code: true,
                is_rio: true,
                test: false,
                autonomous: true,
                teleop_code: false,
                disabled: true,
                battery: 12 * 256 + 128,
                request_date: true,
            },
            tags: vec![
                FromRioTag::Disk(DiskInfo { bytes_available: 5 }),
                FromRioTag::Unknown(UnknownTag { size: 3 }),
            ],
            truncated: false,
        }
    );
}

#[test]
fn battery_is_whole_volts_and_256ths() {
    let buf = packet([0, 0, 0, 0, 0, 12, 128], &[2, 0xff]);
    let header = FromRioUdpPacket::from_packet(&buf).unwrap().header;
    assert_eq!(header.battery, 3200);
    assert_eq!(header.battery_volts(), 12);
    assert_eq!(header.battery_fraction(), 128);
    let volts = header.battery_volts() as f32 + header.battery_fraction() as f32 / 256f32;
    assert_eq!(volts, 12.5);
    assert_eq!(header.battery as f32 / 256f32, 12.5);

    let full = StatusHeader { battery: 0xffff, ..quiet_header() };
    assert_eq!(full.battery_volts(), 255);
    assert_eq!(full.battery_fraction(), 255);
    let empty = StatusHeader { battery: 0, ..quiet_header() };
    assert_eq!(empty.battery_volts(), 0);
    assert_eq!(empty.battery_fraction(), 0);
}

#[test]
fn each_status_bit() {
    let cases: [(u8, StatusHeader); 6] = [
        (0b1000_0000, StatusHeader { e_stopped: true, ..quiet_header() }),
        (0b0001_0000, StatusHeader { brownout: true, ..quiet_header() }),
        (0b0000_1000, StatusHeader { code_start: true, ..quiet_header() }),
        (0b0000_0100, StatusHeader { enabled: true, ..quiet_header() }),
        (0b0000_0001, StatusHeader { mode: Mode::Test, ..quiet_header() }),
        (0b0110_0011, StatusHeader { mode: Mode::Invalid, ..quiet_header() }),
    ];
    for (status, expected) in cases {
        let buf = [0, 0, 0, status, 0, 0, 0, 0];
        assert_eq!(StatusHeader::read(&buf), expected);
    }
}

#[test]
fn each_trace_bit() {
    let cases: [(u8, StatusHeader); 7] = [
        (0b0010_0000, StatusHeader { robot_code: true, ..quiet_header() }),
        (0b0001_0000, StatusHeader { is_rio: true, ..quiet_header() }),
        (0b0000_1000, StatusHeader { test: true, ..quiet_header() }),
        (0b0000_0100, StatusHeader { autonomous: true, ..quiet_header() }),
        (0b0000_0010, StatusHeader { teleop_code: true, ..quiet_header() }),
        (0b0000_0001, StatusHeader { disabled: true, ..quiet_header() }),
        (0b1100_0000, quiet_header()),
    ];
    for (trace, expected) in cases {
        let buf = [0, 0, 0, 0, trace, 0, 0, 0];
        assert_eq!(StatusHeader::read(&buf), expected);
    }
}

#[test]
fn third_byte_is_not_looked_at() {
    let one = StatusHeader::read(&[1, 2, 0x00, 0, 0, 0, 0, 0]);
    let other = StatusHeader::read(&[1, 2, 0xff, 0, 0, 0, 0, 0]);
    assert_eq!(one, other);
    assert_eq!(one.sequence, 0x0102);
}

#[test]
fn request_date_is_the_first_length_byte() {
    let asked = FromRioUdpPacket::from_packet(&packet([0; 7], &[2, 0xff])).unwrap();
    assert!(asked.header.request_date);
    assert!(!asked.truncated);
    assert_eq!(asked.tags, vec![FromRioTag::Unknown(UnknownTag { size: 2 })]);

    let not_asked = FromRioUdpPacket::from_packet(&packet([0; 7], &[0])).unwrap();
    assert!(!not_asked.header.request_date);
}

#[test]
fn header_alone_has_a_truncated_chain() {
    for last in [0u8, 1, 2, 6, 255] {
        let decoded = FromRioUdpPacket::from_packet(&packet([0, 9, 0, 0, 0, 0, 0], &[last])).unwrap();
        assert!(decoded.truncated);
        assert!(decoded.tags.is_empty());
        assert_eq!(decoded.header.sequence, 9);
        assert_eq!(decoded.header.request_date, last != 0);
    }
}

#[test]
fn truncated_chain_keeps_header_and_drops_records() {
    let buf = packet(
        [0x12, 0x34, 0x01, 0b0000_0101, 0b0000_0010, 11, 64],
        &[10, 0x06, 0, 0, 0, 1, 0, 0, 0, 2, 6, 0x04, 0, 0],
    );
    let decoded = FromRioUdpPacket::from_packet(&buf).unwrap();
    assert!(decoded.truncated);
    assert_eq!(decoded.tags, vec![]);
    assert_eq!(
        decoded.header,
        StatusHeader {
            sequence: 0x1234,
            enabled: true,
            mode: Mode::Test,
            teleop_code: true,
            battery: 11 * 256 + 64,
            request_date: true,
            ..quiet_header()
        }
    );

    // The same packet with its last record made whole.
    let mut whole = buf.clone();
    whole.extend_from_slice(&[0, 7]);
    let decoded = FromRioUdpPacket::from_packet(&whole).unwrap();
    assert!(!decoded.truncated);
    assert_eq!(
        decoded.tags,
        vec![
            FromRioTag::Ram(RamInfo { block: 1, free_space: 2 }),
            FromRioTag::Disk(DiskInfo { bytes_available: 7 }),
        ]
    );
}
