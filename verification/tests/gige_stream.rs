use cameleon::bytes::Cursor;
use cameleon::gige::stream::{
    ImageLeader, ImageTrailer, PacketHeader, PacketType, PayloadType, PayloadTypeKind, StreamFlag,
};
use cameleon::gige::{Error, StatusKind};

#[test]
fn standard_packet_header() {
    let mut buf = Vec::new();
    buf.extend_from_slice(&0u16.to_be_bytes());
    buf.extend_from_slice(&0x0102u16.to_be_bytes());
    buf.extend_from_slice(&0x0100_0005u32.to_be_bytes());
    let mut cursor = Cursor::new(&buf);
    let header = PacketHeader::parse(&mut cursor).unwrap();
    assert_eq!(header.status.kind(), StatusKind::Success);
    assert!(!header.ei_flag);
    assert_eq!(header.packet_type, PacketType::Leader);
    assert_eq!(header.block_id, 0x0102);
    assert_eq!(header.packet_id, 5);
    assert_eq!(header.stream_flag, StreamFlag(0));
    assert_eq!(cursor.position(), 8);
}

#[test]
fn extended_packet_header() {
    let mut buf = Vec::new();
    buf.extend_from_slice(&0u16.to_be_bytes());
    buf.extend_from_slice(&0x8000u16.to_be_bytes());
    buf.extend_from_slice(&0x8200_0000u32.to_be_bytes());
    buf.extend_from_slice(&0x1122_3344_5566_7788u64.to_be_bytes());
    buf.extend_from_slice(&9u32.to_be_bytes());
    let mut cursor = Cursor::new(&buf);
    let header = PacketHeader::parse(&mut cursor).unwrap();
    assert!(header.ei_flag);
    assert_eq!(header.packet_type, PacketType::Trailer);
    assert_eq!(header.block_id, 0x1122_3344_5566_7788);
    assert_eq!(header.packet_id, 9);
    assert!(header.stream_flag.is_packet_resend());
    assert!(!header.stream_flag.is_previous_block_dropped());
    assert!(!header.stream_flag.is_resend_range_error());
    assert_eq!(cursor.position(), 20);
}

#[test]
fn packet_header_errors() {
    let buf = [0u8, 0, 0, 0, 0x04, 0, 0, 0];
    assert!(matches!(PacketHeader::parse(&mut Cursor::new(&buf)), Err(Error::InvalidData(_))));
    let buf = [0x12u8, 0x34, 0, 0, 0x01, 0, 0, 0];
    assert!(matches!(PacketHeader::parse(&mut Cursor::new(&buf)), Err(Error::InvalidPacket(_))));
    let buf = [0u8, 0, 0, 0, 0x81, 0, 0, 0];
    assert!(matches!(PacketHeader::parse(&mut Cursor::new(&buf)), Err(Error::Io(_))));
    assert!(matches!(PacketHeader::parse(&mut Cursor::new(&buf[..5])), Err(Error::Io(_))));
}

#[test]
fn payload_type_kinds() {
    assert_eq!(PayloadType(0x0001).kind(), PayloadTypeKind::Image);
    assert_eq!(PayloadType(0x4003).kind(), PayloadTypeKind::File);
    assert_eq!(PayloadType(0x0009).kind(), PayloadTypeKind::MultiZone);
    assert_eq!(PayloadType(0x8005).kind(), PayloadTypeKind::DeviceSpecific(0x8005));
    assert!(PayloadType(0x0002).is_extended_chunk());
    assert!(!PayloadType(0x0001).is_extended_chunk());
}

#[test]
fn generic_leader_payload_type_keeps_position() {
    let buf = [0xaau8, 0xbb, 0x00, 0x01, 0xff];
    let mut cursor = Cursor::new(&buf);
    let pt = PayloadType::parse_generic_leader(&mut cursor).unwrap();
    assert_eq!(pt, PayloadType(1));
    assert_eq!(cursor.position(), 0);
    assert!(matches!(
        PayloadType::parse_generic_leader(&mut Cursor::new(&buf[..3])),
        Err(Error::Io(_))
    ));
}

#[test]
fn image_leader() {
    let mut buf = vec![0x21u8, 0x00];
    buf.extend_from_slice(&1u16.to_be_bytes());
    buf.extend_from_slice(&1000u64.to_be_bytes());
    buf.extend_from_slice(&0x0108_0001u32.to_be_bytes());
    buf.extend_from_slice(&640u32.to_be_bytes());
    buf.extend_from_slice(&480u32.to_be_bytes());
    buf.extend_from_slice(&8u32.to_be_bytes());
    buf.extend_from_slice(&16u32.to_be_bytes());
    buf.extend_from_slice(&2u16.to_be_bytes());
    buf.extend_from_slice(&4u16.to_be_bytes());
    let mut cursor = Cursor::new(&buf);
    let leader = ImageLeader::parse(&mut cursor).unwrap();
    assert_eq!(leader.field_id(), 2);
    assert_eq!(leader.field_count(), 1);
    assert_eq!(leader.payload_type(), PayloadType(1));
    assert_eq!(leader.timestamp(), 1000);
    assert_eq!(leader.pixel_format(), 0x0108_0001);
    assert_eq!(leader.width(), 640);
    assert_eq!(leader.height(), 480);
    assert_eq!(leader.x_offset(), 8);
    assert_eq!(leader.y_offset(), 16);
    assert_eq!(leader.x_padding(), 2);
    assert_eq!(leader.y_padding(), 4);
    assert_eq!(cursor.position(), 36);
    assert!(matches!(ImageLeader::parse(&mut Cursor::new(&buf[..35])), Err(Error::Io(_))));
}

#[test]
fn image_trailer_reads_nothing() {
    let buf = [1u8, 2, 3];
    let mut cursor = Cursor::new(&buf);
    assert!(ImageTrailer::parse(&mut cursor).is_ok());
    assert_eq!(cursor.position(), 0);
}
