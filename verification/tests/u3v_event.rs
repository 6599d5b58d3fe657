use cameleon::u3v::align_to_packet;
use cameleon::u3v::event::EventPacket;
use cameleon::u3v::Error;

fn serialize_header(scd_len: u16, request_id: u16) -> Vec<u8> {
    let mut ccd = vec![];
    ccd.extend_from_slice(&0x4556_3355_u32.to_le_bytes()); // Magic.
    ccd.extend_from_slice(&(1_u16 << 14).to_le_bytes()); // Request ack for now.
    ccd.extend_from_slice(&0x0c00_u16.to_le_bytes());
    ccd.extend_from_slice(&scd_len.to_le_bytes());
    ccd.extend_from_slice(&request_id.to_le_bytes());
    ccd
}

#[test]
fn test_single_event() {
    let mut scd = vec![];
    scd.extend_from_slice(&0_u16.to_le_bytes()); // Single event.
    scd.extend_from_slice(&0x10_u16.to_le_bytes()); // Dummy event ID.
    let timestamp = 0x0123_4567_89ab_cdef_u64;
    scd.extend_from_slice(&timestamp.to_le_bytes());
    let data: &[u8] = &[0x12, 0x34];
    scd.extend(data);

    let mut raw_packet = serialize_header(scd.len() as u16, 1);
    raw_packet.extend(scd);

    let event_packet = EventPacket::parse(&raw_packet).unwrap();

    assert_eq!(event_packet.request_id(), 1);
    assert_eq!(event_packet.scd.len(), 1);
    assert_eq!(event_packet.scd[0].event_id, 0x10);
    assert_eq!(event_packet.scd[0].timestamp, 0x0123_4567_89ab_cdef);
    assert_eq!(event_packet.scd[0].data, data);
}

#[test]
fn test_multi_event() {
    let mut scd = vec![];
    scd.extend_from_slice(&14_u16.to_le_bytes()); // Multi event 1.
    scd.extend_from_slice(&0x10_u16.to_le_bytes()); // Dummy event ID.
    let timestamp1 = 0x0123_4567_89ab_cdef_u64;
    scd.extend_from_slice(&timestamp1.to_le_bytes());
    let data: &[u8] = &[0x12, 0x34];
    scd.extend(data);

    scd.extend_from_slice(&12_u16.to_le_bytes()); // Multi event 2.
    scd.extend_from_slice(&0x11_u16.to_le_bytes()); // Dummy event ID.
    let timestamp2 = 0x1_u64;
    scd.extend_from_slice(&timestamp2.to_le_bytes());

    let mut raw_packet = serialize_header(scd.len() as u16, 1);
    raw_packet.extend(scd);

    let event_packet = EventPacket::parse(&raw_packet).unwrap();

    assert_eq!(event_packet.request_id(), 1);
    assert_eq!(event_packet.scd.len(), 2);
    assert_eq!(event_packet.scd[0].event_id, 0x10);
    assert_eq!(event_packet.scd[0].timestamp, timestamp1);
    assert_eq!(event_packet.scd[0].data, data);

    assert_eq!(event_packet.scd[1].event_id, 0x11);
    assert_eq!(event_packet.scd[1].timestamp, timestamp2);
    let empty: &[u8] = &[];
    assert_eq!(event_packet.scd[1].data, empty);
}

#[test]
fn event_with_wrong_magic_is_invalid() {
    let mut raw_packet = serialize_header(0, 1);
    raw_packet[0] = 0;
    assert!(matches!(EventPacket::parse(&raw_packet), Err(Error::InvalidPacket(_))));
}

#[test]
fn event_with_wrong_command_id_is_invalid() {
    let mut raw_packet = serialize_header(0, 1);
    raw_packet[7] = 0;
    assert!(matches!(EventPacket::parse(&raw_packet), Err(Error::InvalidPacket(_))));
}

#[test]
fn truncated_event_header_is_eof() {
    let raw_packet = serialize_header(0, 1);
    assert!(matches!(EventPacket::parse(&raw_packet[..10]), Err(Error::BufferIo(_))));
    assert!(matches!(EventPacket::parse(&raw_packet[..3]), Err(Error::BufferIo(_))));
}

#[test]
fn event_without_scd_has_no_event() {
    let raw_packet = serialize_header(0, 7);
    let event_packet = EventPacket::parse(&raw_packet).unwrap();
    assert_eq!(event_packet.request_id(), 7);
    assert_eq!(event_packet.scd.len(), 0);
}

#[test]
fn event_size_below_header_is_invalid() {
    let mut raw_packet = serialize_header(12, 1);
    raw_packet.extend_from_slice(&5_u16.to_le_bytes());
    raw_packet.extend_from_slice(&0x10_u16.to_le_bytes());
    raw_packet.extend_from_slice(&0_u64.to_le_bytes());
    assert!(matches!(EventPacket::parse(&raw_packet), Err(Error::InvalidPacket(_))));
}

#[test]
fn scd_len_shorter_than_event_is_invalid() {
    let mut raw_packet = serialize_header(12, 1);
    raw_packet.extend_from_slice(&14_u16.to_le_bytes());
    raw_packet.extend_from_slice(&0x10_u16.to_le_bytes());
    raw_packet.extend_from_slice(&0_u64.to_le_bytes());
    raw_packet.extend_from_slice(&[1, 2]);
    assert!(matches!(EventPacket::parse(&raw_packet), Err(Error::InvalidPacket(_))));
}

#[test]
fn event_data_past_the_end_is_eof() {
    let mut raw_packet = serialize_header(20, 1);
    raw_packet.extend_from_slice(&0_u16.to_le_bytes());
    raw_packet.extend_from_slice(&0x10_u16.to_le_bytes());
    raw_packet.extend_from_slice(&0_u64.to_le_bytes());
    raw_packet.extend_from_slice(&[1, 2]);
    assert!(matches!(EventPacket::parse(&raw_packet), Err(Error::BufferIo(_))));
}

#[test]
fn align_to_packet_rounds_up_to_whole_packets() {
    assert_eq!(align_to_packet(0, 512), 512);
    assert_eq!(align_to_packet(1, 512), 512);
    assert_eq!(align_to_packet(512, 512), 512);
    assert_eq!(align_to_packet(513, 512), 1024);
    assert_eq!(align_to_packet(0, 0), 1);
    assert_eq!(align_to_packet(5, 0), 5);
    assert_eq!(align_to_packet(usize::MAX - 511, 512), usize::MAX - 511);
}
