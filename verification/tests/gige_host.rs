use cameleon::bytes::{Cursor, IoError};
use cameleon::camera::device::DeviceError;
use cameleon::camera::gige_control::{HeartbeatEvent, HeartbeatLoop, OpenMode};
use cameleon::camera::gige_memory::{MemReader, MemWriter, ReadRequest, WriteRequest};
use cameleon::camera::gige_stream::{StreamEvent, StreamingState};
use cameleon::control::{ControlError, DeviceIoError};
use cameleon::gige::stream::PacketType;
use cameleon::gige::Error;
use cameleon::u3v::{Error as U3vError, UsbError};

fn header(packet_type: u8, packet_id: u32) -> Vec<u8> {
    let mut buf = Vec::new();
    buf.extend_from_slice(&0u16.to_be_bytes());
    buf.extend_from_slice(&7u16.to_be_bytes());
    buf.extend_from_slice(&((u32::from(packet_type) << 24) | packet_id).to_be_bytes());
    buf
}

fn leader_packet(width: u32) -> Vec<u8> {
    let mut buf = header(1, 0);
    buf.push(0x21);
    buf.push(0);
    buf.extend_from_slice(&1u16.to_be_bytes());
    buf.extend_from_slice(&99u64.to_be_bytes());
    buf.extend_from_slice(&0x0108_0001u32.to_be_bytes());
    buf.extend_from_slice(&width.to_be_bytes());
    buf.extend_from_slice(&480u32.to_be_bytes());
    buf.extend_from_slice(&[0; 12]);
    buf
}

#[test]
fn stream_leader_then_trailer_completes_block() {
    let mut state = StreamingState::new();
    let leader = leader_packet(640);
    assert!(matches!(
        state.on_packet(Cursor::new(&leader)),
        StreamEvent::BlockStarted { replaced: false }
    ));
    let data = header(3, 1);
    assert!(matches!(state.on_packet(Cursor::new(&data)), StreamEvent::Data));
    let trailer = header(2, 2);
    match state.on_packet(Cursor::new(&trailer)) {
        StreamEvent::BlockCompleted(l) => {
            assert_eq!(l.width(), 640);
            assert_eq!(l.height(), 480);
            assert_eq!(l.timestamp(), 99);
            assert_eq!(l.pixel_format(), 0x0108_0001);
            assert_eq!(l.field_id(), 2);
            assert_eq!(l.field_count(), 1);
        }
        other => panic!("unexpected event: {other:?}"),
    }
    // The block is closed: a second trailer has nothing to close.
    assert!(matches!(state.on_packet(Cursor::new(&trailer)), StreamEvent::OrphanTrailer));
}

#[test]
fn stream_second_leader_replaces_open_block() {
    let mut state = StreamingState::new();
    let first = leader_packet(1);
    let second = leader_packet(2);
    assert!(matches!(
        state.on_packet(Cursor::new(&first)),
        StreamEvent::BlockStarted { replaced: false }
    ));
    assert!(matches!(
        state.on_packet(Cursor::new(&second)),
        StreamEvent::BlockStarted { replaced: true }
    ));
    match state.on_packet(Cursor::new(&header(2, 0))) {
        StreamEvent::BlockCompleted(l) => assert_eq!(l.width(), 2),
        other => panic!("unexpected event: {other:?}"),
    }
}

#[test]
fn stream_broken_and_unsupported_packets_are_skipped() {
    let mut state = StreamingState::new();
    let leader = leader_packet(5);
    state.on_packet(Cursor::new(&leader));
    // Too short for a header.
    assert!(matches!(
        state.on_packet(Cursor::new(&[0, 0, 0])),
        StreamEvent::Broken(Error::Io(IoError::UnexpectedEof))
    ));
    // A leader whose image leader is cut short leaves the open block alone.
    let short = &leader_packet(6)[..20];
    assert!(matches!(
        state.on_packet(Cursor::new(short)),
        StreamEvent::Broken(Error::Io(IoError::UnexpectedEof))
    ));
    assert!(matches!(
        state.on_packet(Cursor::new(&header(5, 0))),
        StreamEvent::Unsupported(PacketType::H264Payload)
    ));
    assert!(matches!(
        state.on_packet(Cursor::new(&header(6, 0))),
        StreamEvent::Unsupported(PacketType::MultiZonePayload)
    ));
    // Unknown packet type.
    assert!(matches!(
        state.on_packet(Cursor::new(&header(9, 0))),
        StreamEvent::Broken(Error::InvalidData(_))
    ));
    match state.on_packet(Cursor::new(&header(2, 0))) {
        StreamEvent::BlockCompleted(l) => assert_eq!(l.width(), 5),
        other => panic!("unexpected event: {other:?}"),
    }
}

#[test]
fn mem_reader_splits_into_aligned_chunks() {
    let mut reader = MemReader::new(0x1000, 1000, true);
    let mut requests = Vec::new();
    while !reader.is_done() {
        let req = reader.next_request().unwrap();
        requests.push(req);
        let answer: Vec<u8> = match req {
            ReadRequest::Memory { length, .. } => (0..length).map(|i| i as u8).collect(),
            ReadRequest::Register { .. } => unreachable!(),
        };
        reader.accept(&answer);
    }
    assert_eq!(
        requests,
        vec![
            ReadRequest::Memory { address: 0x1000, length: 536 },
            ReadRequest::Memory { address: 0x1000 + 536, length: 464 },
        ]
    );
    let data = reader.into_data();
    assert_eq!(data.len(), 1000);
    assert_eq!(data[535], (535 % 256) as u8);
    assert_eq!(data[536], 0);
}

#[test]
fn mem_reader_rounds_last_chunk_up() {
    let mut reader = MemReader::new(0x20, 6, true);
    assert_eq!(reader.next_request().unwrap(), ReadRequest::Memory { address: 0x20, length: 8 });
    reader.accept(&[1, 2, 3, 4, 5, 6, 7, 8]);
    assert!(reader.is_done());
    assert_eq!(reader.into_data(), vec![1, 2, 3, 4, 5, 6]);
}

#[test]
fn mem_reader_falls_back_to_registers() {
    // Four bytes always go through a register.
    let mut reader = MemReader::new(0x10, 4, true);
    assert_eq!(reader.next_request().unwrap(), ReadRequest::Register { address: 0x10 });
    reader.accept(&[9, 8, 7, 6]);
    assert!(reader.is_done());
    assert_eq!(reader.into_data(), vec![9, 8, 7, 6]);

    // Without memory commands every four bytes are one register read.
    let mut reader = MemReader::new(0x10, 6, false);
    assert_eq!(reader.next_request().unwrap(), ReadRequest::Register { address: 0x10 });
    reader.accept(&[1, 2, 3, 4]);
    assert_eq!(reader.next_request().unwrap(), ReadRequest::Register { address: 0x14 });
    reader.accept(&[5, 6, 7, 8]);
    assert!(reader.is_done());
    assert_eq!(reader.into_data(), vec![1, 2, 3, 4, 5, 6]);
}

#[test]
fn mem_reader_refuses_address_past_u32() {
    let reader = MemReader::new(0x1_0000_0000, 8, true);
    assert!(matches!(reader.next_request(), Err(ControlError::InvalidData(_))));
}

#[test]
fn mem_writer_pads_last_chunk() {
    let data: Vec<u8> = (0..545u32).map(|i| i as u8).collect();
    let mut writer = MemWriter::new(0x100, data.clone(), true);
    match writer.next_request().unwrap() {
        WriteRequest::Memory { address, data: chunk } => {
            assert_eq!(address, 0x100);
            assert_eq!(chunk, data[..536].to_vec());
        }
        other => panic!("unexpected request: {other:?}"),
    }
    writer.advance();
    match writer.next_request().unwrap() {
        WriteRequest::Memory { address, data: chunk } => {
            assert_eq!(address, 0x100 + 536);
            let mut expected = data[536..].to_vec();
            expected.extend_from_slice(&[0, 0, 0]);
            assert_eq!(chunk, expected);
        }
        other => panic!("unexpected request: {other:?}"),
    }
    writer.advance();
    assert!(writer.is_done());
}

#[test]
fn mem_writer_falls_back_to_registers() {
    let mut writer = MemWriter::new(0x40, vec![1, 2, 3, 4, 5], false);
    match writer.next_request().unwrap() {
        WriteRequest::Register { address, data } => {
            assert_eq!(address, 0x40);
            assert_eq!(data, [1, 2, 3, 4]);
        }
        other => panic!("unexpected request: {other:?}"),
    }
    writer.advance();
    match writer.next_request().unwrap() {
        WriteRequest::Register { address, data } => {
            assert_eq!(address, 0x44);
            assert_eq!(data, [5, 0, 0, 0]);
        }
        other => panic!("unexpected request: {other:?}"),
    }
    writer.advance();
    assert!(writer.is_done());

    let writer = MemWriter::new(0x40, vec![1, 2, 3, 4], true);
    assert!(matches!(
        writer.next_request(),
        Ok(WriteRequest::Register { address: 0x40, data: [1, 2, 3, 4] })
    ));
}

#[test]
fn mem_writer_refuses_address_past_u32() {
    let writer = MemWriter::new(0x1_0000_0000, vec![0; 8], true);
    assert!(matches!(writer.next_request(), Err(ControlError::InvalidData(_))));
}

#[test]
fn device_error_from_usb_errors() {
    assert_eq!(DeviceError::from(U3vError::Usb(UsbError::Busy)), DeviceError::Busy);
    assert_eq!(
        DeviceError::from(U3vError::Usb(UsbError::Disconnected)),
        DeviceError::Disconnected
    );
    assert_eq!(DeviceError::from(U3vError::Usb(UsbError::NotFound)), DeviceError::Disconnected);
    assert_eq!(DeviceError::from(U3vError::Usb(UsbError::Timeout)), DeviceError::Timeout);
    assert_eq!(
        DeviceError::from(U3vError::Usb(UsbError::Stall)),
        DeviceError::Io(DeviceIoError::Transport(U3vError::Usb(UsbError::Stall)))
    );
    assert_eq!(
        DeviceError::from(U3vError::BufferIo(IoError::UnexpectedEof)),
        DeviceError::Io(DeviceIoError::Transport(U3vError::BufferIo(IoError::UnexpectedEof)))
    );
}

#[test]
fn heartbeat_loop_follows_events() {
    let mut hb = HeartbeatLoop::new(3000, OpenMode::Exclusive);
    assert!(hb.need_heartbeat);
    assert_eq!(hb.reset_interval_ns(), Some(1_000_000_000));
    assert!(hb.on_event(HeartbeatEvent::TimeoutChanged(1000)));
    assert_eq!(hb.timeout_ms, 1000);
    assert_eq!(hb.reset_interval_ns(), Some(333_333_333));
    assert!(!hb.on_event(HeartbeatEvent::ChannelClosed));

    let mut monitor = HeartbeatLoop::new(3000, OpenMode::MonitorAccess);
    assert!(!monitor.need_heartbeat);
    assert_eq!(monitor.reset_interval_ns(), None);
    assert!(monitor.on_event(HeartbeatEvent::TimeoutChanged(10)));
    assert_eq!(monitor.timeout_ms, 3000);
    assert!(HeartbeatLoop::new(5, OpenMode::Control).need_heartbeat);
}
