use sherbus::parser::{
    convert_u32_to_u8, parse_rx, parse_tx, PacketParsed, PacketType, RawPacket,
    MAX_PAYLOAD_SIZE, PACKET_SIZE,
};

fn header_frame(word0: u32, word1: u32) -> RawPacket {
    let mut data = [0u32; PACKET_SIZE];
    data[0] = word0;
    data[1] = word1;
    RawPacket { data }
}

fn counting_payload(base: u8) -> [u8; MAX_PAYLOAD_SIZE] {
    let mut p = [0u8; MAX_PAYLOAD_SIZE];
    for (i, b) in p.iter_mut().enumerate() {
        *b = base + i as u8;
    }
    p
}

fn packet(
    protocol: bool,
    packet_type: PacketType,
    from: Option<(u8, u8)>,
    to: Option<(u8, u8)>,
    appcode: u16,
    payload: [u8; MAX_PAYLOAD_SIZE],
) -> PacketParsed {
    PacketParsed { protocol, packet_type, from, to, appcode, payload, payload_len: 0 }
}

#[test]
fn convert_splits_words_most_significant_first() {
    let words = [0x11223344, 0x55667788, 0, 0, 0, 0, 0, 0xAABBCCDD];
    let b = convert_u32_to_u8(words);
    assert_eq!(&b[0..8], &[0x11, 0x22, 0x33, 0x44, 0x55, 0x66, 0x77, 0x88]);
    assert_eq!(&b[8..28], &[0u8; 20]);
    assert_eq!(&b[28..32], &[0xAA, 0xBB, 0xCC, 0xDD]);
}

#[test]
fn rx_raw_frame_is_passed_whole() {
    let data = [0x7F00_0001, 2, 3, 4, 5, 6, 7, 0xFFFF_FFFF];
    let p = parse_rx(RawPacket { data }).unwrap();
    assert!(!p.protocol);
    assert_eq!(p.packet_type, PacketType::NoType);
    assert_eq!(p.from, None);
    assert_eq!(p.to, None);
    assert_eq!(p.appcode, 0);
    assert_eq!(p.payload_len, MAX_PAYLOAD_SIZE);
    assert_eq!(p.payload, convert_u32_to_u8(data));
}

#[test]
fn rx_bpi_header() {
    let p = parse_rx(header_frame(0xC11A2F12, 0x3400_0000)).unwrap();
    assert!(p.protocol);
    assert_eq!(p.packet_type, PacketType::Control);
    assert_eq!(p.from, Some((3, 2)));
    assert_eq!(p.to, Some((5, 7)));
    assert_eq!(p.appcode, 0x1234);
    assert_eq!(p.payload, [0u8; MAX_PAYLOAD_SIZE]);
    assert_eq!(p.payload_len, 0);
}

#[test]
fn rx_short_header_appcode_in_bytes_1_and_2() {
    let p = parse_rx(header_frame(0xC001_0300, 0)).unwrap();
    assert!(p.protocol);
    assert_eq!(p.packet_type, PacketType::Control);
    assert_eq!(p.from, None);
    assert_eq!(p.to, None);
    assert_eq!(p.appcode, 0x0103);
    assert_eq!(p.payload_len, 0);
    let p = parse_rx(header_frame(0x8401_0203, 0)).unwrap();
    assert_eq!(p.packet_type, PacketType::Stream);
    assert_eq!(p.appcode, 0x0102);
    let p = parse_rx(header_frame(0x84FF_FF00, 0)).unwrap();
    assert_eq!(p.appcode, 0xFFFF);
}

#[test]
fn rx_type_codes() {
    let cases = [
        (0xC0u32, PacketType::Control),
        (0xA0, PacketType::Interupt),
        (0x90, PacketType::EchoResponse),
        (0x88, PacketType::EchoRequest),
        (0x84, PacketType::Stream),
    ];
    for (b0, t) in cases {
        assert_eq!(parse_rx(header_frame(b0 << 24, 0)).unwrap().packet_type, t);
        assert_eq!(parse_rx(header_frame((b0 | 1) << 24, 0)).unwrap().packet_type, t);
    }
}

#[test]
fn rx_unknown_type_is_refused() {
    assert!(parse_rx(header_frame(0x8000_0000, 0)).is_none());
    assert!(parse_rx(header_frame(0x8100_0000, 0)).is_none());
    assert!(parse_rx(header_frame(0x8C00_0000, 0)).is_none());
    assert!(parse_rx(header_frame(0xFC00_0000, 0)).is_none());
}

#[test]
fn tx_raw_packet() {
    let p = packet(false, PacketType::Control, Some((1, 1)), None, 0xFFFF, counting_payload(0));
    let r = parse_tx(p).unwrap();
    assert_eq!(
        r.data,
        [0x00010203, 0x04050607, 0x08090a0b, 0x0c0d0e0f, 0x10111213, 0x14151617, 0x18191a1b, 0x1c1d1e1f]
    );
    // the protocol bit of payload byte 0 is cleared
    let mut pl = [0u8; MAX_PAYLOAD_SIZE];
    pl[0] = 0xFF;
    pl[3] = 0x12;
    let r = parse_tx(packet(false, PacketType::NoType, None, None, 0, pl)).unwrap();
    assert_eq!(r.data[0], 0x7F00_0012);
    // payload bytes with their top bit set elsewhere leave the protocol bit clear
    pl[1] = 0x80;
    pl[2] = 0xFF;
    let r = parse_tx(packet(false, PacketType::NoType, None, None, 0, pl)).unwrap();
    assert_eq!(r.data[0], 0x7F80_FF12);
}

#[test]
fn tx_bpi_packet() {
    let p = packet(true, PacketType::Control, Some((3, 2)), Some((5, 7)), 0x1234, counting_payload(0x40));
    let r = parse_tx(p).unwrap();
    assert_eq!(
        r.data,
        [0xc11a2f12, 0x34404142, 0x43444546, 0x4748494a, 0x4b4c4d4e, 0x4f505152, 0x53545556, 0x5758595a]
    );
}

#[test]
fn tx_bpi_fields_are_masked() {
    let p = packet(true, PacketType::Stream, Some((0xFF, 0xFF)), Some((0x20, 0x08)), 0, [0; 32]);
    let r = parse_tx(p).unwrap();
    // 0x85 control byte, BPI 0xFF00: source 31/7, destination 0/0
    assert_eq!(r.data[0], 0x85FF_0000);
}

#[test]
fn tx_short_packet() {
    let p = packet(true, PacketType::EchoRequest, None, Some((9, 9)), 0xBEEF, counting_payload(0x40));
    let r = parse_tx(p).unwrap();
    assert_eq!(
        r.data,
        [0x88beef40, 0x41424344, 0x45464748, 0x494a4b4c, 0x4d4e4f50, 0x51525354, 0x55565758, 0x595a5b5c]
    );
}

#[test]
fn tx_control_bytes() {
    let cases = [
        (PacketType::NoType, 0x80u32),
        (PacketType::Control, 0xC0),
        (PacketType::Interupt, 0xA0),
        (PacketType::EchoRequest, 0x88),
        (PacketType::EchoResponse, 0x90),
        (PacketType::Stream, 0x84),
    ];
    for (t, b0) in cases {
        let r = parse_tx(packet(true, t, None, None, 0, [0; 32])).unwrap();
        assert_eq!(r.data[0] >> 24, b0);
        let r = parse_tx(packet(true, t, Some((0, 0)), Some((0, 0)), 0, [0; 32])).unwrap();
        assert_eq!(r.data[0] >> 24, b0 + 1);
    }
}

#[test]
fn tx_source_without_destination_is_refused() {
    let p = packet(true, PacketType::Control, Some((1, 2)), None, 7, [0; 32]);
    assert!(parse_tx(p).is_none());
}

#[test]
fn tx_examples_byte_for_byte() {
    let mut pl = [0u8; 32];
    pl[..4].copy_from_slice(&[0x11, 0x22, 0x33, 0x44]);
    let r = parse_tx(packet(true, PacketType::Control, Some((3, 5)), Some((17, 2)), 0xABCD, pl)).unwrap();
    assert_eq!(r.data, [0xC11D8AAB, 0xCD112233, 0x44000000, 0, 0, 0, 0, 0]);
    let mut pl = [0u8; 32];
    pl[..5].copy_from_slice(&[0x55, 0x66, 0x77, 0x88, 0x99]);
    let r = parse_tx(packet(true, PacketType::Stream, None, Some((9, 1)), 0x1234, pl)).unwrap();
    assert_eq!(r.data, [0x84123455, 0x66778899, 0, 0, 0, 0, 0, 0]);
    let mut pl = [0u8; 32];
    pl[..8].copy_from_slice(&[0xFF, 0x02, 0x03, 0x04, 0x05, 0x06, 0x07, 0x08]);
    let r = parse_tx(packet(false, PacketType::NoType, None, None, 0, pl)).unwrap();
    assert_eq!(r.data, [0x7F020304, 0x05060708, 0, 0, 0, 0, 0, 0]);
}

#[test]
fn roundtrip_bpi_header() {
    let p = packet(true, PacketType::Interupt, Some((35, 10)), Some((17, 3)), 0x1234, counting_payload(0x40));
    let back = parse_rx(parse_tx(p).unwrap()).unwrap();
    assert!(back.protocol);
    assert_eq!(back.packet_type, PacketType::Interupt);
    assert_eq!(back.from, Some((35 & 0x1F, 10 & 0x07)));
    assert_eq!(back.to, Some((17, 3)));
    assert_eq!(back.appcode, 0x1234);
    assert_eq!(back.payload_len, 0);
}

#[test]
fn roundtrip_short_header() {
    for appcode in [0x0000u16, 0x0302, 0x0308, 0xFFFF, 0x0101] {
        let p = packet(true, PacketType::EchoResponse, None, None, appcode, counting_payload(1));
        let back = parse_rx(parse_tx(p).unwrap()).unwrap();
        assert!(back.protocol);
        assert_eq!(back.packet_type, PacketType::EchoResponse);
        assert_eq!(back.from, None);
        assert_eq!(back.to, None);
        assert_eq!(back.appcode, appcode);
    }
}

#[test]
fn roundtrip_notype_is_refused() {
    let p = packet(true, PacketType::NoType, None, None, 0x0001, [0; 32]);
    assert!(parse_rx(parse_tx(p).unwrap()).is_none());
    let p = packet(true, PacketType::NoType, Some((1, 1)), Some((2, 2)), 0x0001, [0; 32]);
    assert!(parse_rx(parse_tx(p).unwrap()).is_none());
}

#[test]
fn roundtrip_raw_keeps_payload() {
    let mut pl = counting_payload(0x70);
    pl[0] = 0xF3;
    let back = parse_rx(parse_tx(packet(false, PacketType::NoType, None, None, 0, pl)).unwrap()).unwrap();
    assert!(!back.protocol);
    assert_eq!(back.packet_type, PacketType::NoType);
    assert_eq!(back.payload_len, MAX_PAYLOAD_SIZE);
    assert_eq!(back.payload[0], 0x73);
    assert_eq!(&back.payload[1..], &pl[1..]);
}

#[test]
fn decode_encode_raw_frame_unchanged() {
    let data = [0x00010203, 0x7F00FF80, 1, 2, 3, 4, 5, 0xFFFFFFFF];
    let p = parse_rx(RawPacket { data }).unwrap();
    assert_eq!(parse_tx(p).unwrap().data, data);
}

#[test]
fn decode_encode_decode_protocol_frame() {
    let frame = header_frame(0xA1FF_FF12, 0x3499_9999);
    let p = parse_rx(frame).unwrap();
    let again = parse_rx(parse_tx(p).unwrap()).unwrap();
    assert_eq!(again, p);
}
