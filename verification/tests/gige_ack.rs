use cameleon::gige::ack::{AckKind, AckPacket, Discovery, Pending, ReadMem, ReadReg, WriteMem, WriteReg};
use cameleon::gige::{Error, StatusKind};

fn ack(status: u16, kind: u16, length: u16, request_id: u16, data: &[u8]) -> Vec<u8> {
    let mut buf = Vec::new();
    buf.extend_from_slice(&status.to_be_bytes());
    buf.extend_from_slice(&kind.to_be_bytes());
    buf.extend_from_slice(&length.to_be_bytes());
    buf.extend_from_slice(&request_id.to_be_bytes());
    buf.extend_from_slice(data);
    buf
}

#[test]
fn ack_header_fields() {
    let buf = ack(0x0000, 0x0083, 4, 0x1234, &[0, 0, 0, 1]);
    let packet = AckPacket::parse(&buf).unwrap();
    assert_eq!(packet.request_id(), 0x1234);
    assert_eq!(packet.ack_kind(), AckKind::WriteReg);
    assert!(packet.status().is_success());
    assert_eq!(packet.status().code(), 0);
    assert_eq!(packet.raw_ack_data(), &[0, 0, 0, 1]);
    let write_reg: WriteReg = packet.ack_data_as().unwrap();
    assert_eq!(write_reg.entry_num(), 1);
}

#[test]
fn ack_header_errors() {
    assert!(matches!(AckPacket::parse(&[0]), Err(Error::Io(_))));
    assert!(matches!(AckPacket::parse(&ack(0x7777, 0x0083, 0, 1, &[])), Err(Error::InvalidPacket(_))));
    assert!(matches!(AckPacket::parse(&ack(0, 0x0099, 0, 1, &[])), Err(Error::InvalidPacket(_))));
    assert!(matches!(AckPacket::parse(&ack(0, 0x0083, 0, 1, &[])[..6]), Err(Error::Io(_))));
    // The whole buffer must be at least as long as the length field.
    assert!(matches!(AckPacket::parse(&ack(0, 0x0083, 100, 1, &[0; 4])), Err(Error::InvalidPacket(_))));
}

#[test]
fn status_kinds() {
    let buf = ack(0x8006, 0x0083, 0, 1, &[]);
    let status = AckPacket::parse(&buf).unwrap().status();
    assert_eq!(status.kind(), StatusKind::AccessDenied);
    assert!(!status.is_success());
    let buf = ack(0x0100, 0x0083, 0, 1, &[]);
    assert!(AckPacket::parse(&buf).unwrap().status().is_success());
}

#[test]
fn ack_kind_mismatch_is_invalid() {
    let buf = ack(0, 0x0083, 4, 1, &[0, 0, 0, 1]);
    let packet = AckPacket::parse(&buf).unwrap();
    assert!(matches!(packet.ack_data_as::<Pending>(), Err(Error::InvalidPacket(_))));
    assert!(matches!(packet.ack_data_as::<ReadReg>(), Err(Error::InvalidPacket(_))));
}

#[test]
fn read_reg_ack_and_iterator() {
    let buf = ack(0, 0x0081, 8, 1, &[0, 0, 0, 5, 0, 0, 0, 6, 0, 0, 0, 7]);
    let packet = AckPacket::parse(&buf).unwrap();
    let read_reg: ReadReg = packet.ack_data_as().unwrap();
    assert_eq!(read_reg.clone().entry_num(), 2);
    let mut it = read_reg.iter();
    assert_eq!(it.next(), Some([0, 0, 0, 5]));
    assert_eq!(it.next(), Some([0, 0, 0, 6]));
    // The iterator yields entry_num + 1 entries.
    assert_eq!(it.next(), Some([0, 0, 0, 7]));
    assert_eq!(it.next(), None);
}

#[test]
fn read_reg_ack_length_must_be_multiple_of_4() {
    let buf = ack(0, 0x0081, 6, 1, &[0; 8]);
    let packet = AckPacket::parse(&buf).unwrap();
    assert!(matches!(packet.ack_data_as::<ReadReg>(), Err(Error::InvalidPacket(_))));
}

#[test]
fn read_mem_ack() {
    let buf = ack(0, 0x0085, 7, 1, &[0, 0, 0x10, 0, 9, 8, 7, 6]);
    let packet = AckPacket::parse(&buf).unwrap();
    let read_mem: ReadMem = packet.ack_data_as().unwrap();
    assert_eq!(read_mem.address(), 0x1000);
    assert_eq!(read_mem.data(), &[9, 8, 7]);
}

#[test]
fn read_mem_ack_too_short_is_eof() {
    let buf = ack(0, 0x0085, 0, 1, &[0, 0]);
    let packet = AckPacket::parse(&buf).unwrap();
    assert!(matches!(packet.ack_data_as::<ReadMem>(), Err(Error::Io(_))));
}

#[test]
fn write_mem_ack() {
    let buf = ack(0, 0x0087, 6, 1, &[0, 0, 0x20, 0, 0, 4]);
    let packet = AckPacket::parse(&buf).unwrap();
    let write_mem: WriteMem = packet.ack_data_as().unwrap();
    assert_eq!(write_mem.address(), 0x2000);
    assert_eq!(write_mem.num_bytes(), 4);
    let short = ack(0, 0x0087, 0, 1, &[0, 0, 0x20]);
    let packet = AckPacket::parse(&short).unwrap();
    assert!(matches!(packet.ack_data_as::<WriteMem>(), Err(Error::Io(_))));
}

#[test]
fn pending_ack() {
    let buf = ack(0, 0x0089, 4, 1, &[0, 0, 0x01, 0xf4]);
    let packet = AckPacket::parse(&buf).unwrap();
    let pending: Pending = packet.ack_data_as().unwrap();
    assert_eq!(pending.waiting_time(), 500);
}

fn discovery_data() -> Vec<u8> {
    let mut raw = vec![0u8; 248];
    raw[0..2].copy_from_slice(&2u16.to_be_bytes());
    raw[2..4].copy_from_slice(&1u16.to_be_bytes());
    raw[4..8].copy_from_slice(&0x8000_0000u32.to_be_bytes());
    raw[10..16].copy_from_slice(&[1, 2, 3, 4, 5, 6]);
    raw[16..20].copy_from_slice(&7u32.to_be_bytes());
    raw[20..24].copy_from_slice(&6u32.to_be_bytes());
    raw[36..40].copy_from_slice(&[192, 168, 0, 10]);
    raw[52..56].copy_from_slice(&[255, 255, 255, 0]);
    raw[68..72].copy_from_slice(&[192, 168, 0, 1]);
    raw[72..78].copy_from_slice(b"Vendor");
    raw[104..109].copy_from_slice(b"Model");
    raw[136..140].copy_from_slice(b"v1.0");
    raw[168..172].copy_from_slice(b"info");
    raw[216..220].copy_from_slice(b"SN42");
    raw[232..236].copy_from_slice(b"name");
    raw
}

#[test]
fn discovery_ack() {
    let data = discovery_data();
    let buf = ack(0, 0x0003, 248, 0xffff, &data);
    let packet = AckPacket::parse(&buf).unwrap();
    assert!(Discovery::strings_in_bounds(packet.raw_ack_data()));
    let d: Discovery = packet.ack_data_as().unwrap();
    assert_eq!((d.gige_version.major, d.gige_version.minor, d.gige_version.patch), (2, 1, 0));
    assert_eq!(d.device_mode.0, 0x8000_0000);
    assert_eq!(d.mac_addr, [1, 2, 3, 4, 5, 6]);
    assert_eq!(d.nic_capability.0, 7);
    assert_eq!(d.nic_configuration.0, 6);
    assert_eq!(d.ip, [192, 168, 0, 10]);
    assert_eq!(d.subnet_mask, [255, 255, 255, 0]);
    assert_eq!(d.default_gateway, [192, 168, 0, 1]);
    assert_eq!(d.manufacturer_name, "Vendor");
    assert_eq!(d.model_name, "Model");
    assert_eq!(d.device_version, "v1.0");
    assert_eq!(d.manufacturer_specific_info, "info");
    assert_eq!(d.serial_number, "SN42");
    assert_eq!(d.user_defined_name, "name");
}

#[test]
fn discovery_ack_too_short() {
    let data = discovery_data();
    let buf = ack(0, 0x0003, 0, 1, &data[..60]);
    let packet = AckPacket::parse(&buf).unwrap();
    assert!(matches!(packet.ack_data_as::<Discovery>(), Err(Error::Io(_))));
    let buf = ack(0, 0x0003, 0, 1, &data[..200]);
    let packet = AckPacket::parse(&buf).unwrap();
    assert!(matches!(packet.ack_data_as::<Discovery>(), Err(Error::InvalidPacket(_))));
}

#[test]
fn discovery_string_without_nul_reads_past_its_field() {
    let mut data = discovery_data();
    data.extend_from_slice(&[0u8; 64]);
    for b in &mut data[72..104] {
        *b = b'a';
    }
    // 72 + 72 + 32 = 176: the field is read up to index 176.
    data[104] = b'b';
    let buf = ack(0, 0x0003, 0, 1, &data);
    let packet = AckPacket::parse(&buf).unwrap();
    assert!(Discovery::strings_in_bounds(packet.raw_ack_data()));
    let d: Discovery = packet.ack_data_as().unwrap();
    assert_eq!(d.manufacturer_name.len(), 104);
    assert!(d.manufacturer_name.starts_with(&"a".repeat(32)));
}
