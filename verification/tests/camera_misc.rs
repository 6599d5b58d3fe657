use cameleon::bytes::IoError;
use cameleon::u3v::UsbError;
use std::cell::RefCell;
use std::collections::HashMap;

use cameleon::camera::device::{
    is_bit_set, parse_version, set_bit, unset_bit, AbrmStaticData, DeviceConfiguration,
    DeviceError, DeviceResult, MemoryAccess, MemoryLog, SbrmStaticData,
};
use cameleon::camera::device_register_map::{Abrm as DeviceAbrm, Sbrm as DeviceSbrm};
use cameleon::camera::gige_control::{control_error_from, AckStep, CommandTransaction, OpenMode};
use cameleon::camera::u3v_control::{ConnectionConfig, RegisterCache};
use cameleon::camera::gige_register_map::{Bootstrap, StreamRegister};
use cameleon::camera::u3v_register_map::BusSpeed;
use cameleon::common::Version;
use cameleon::control::{AccessLog, ControlError, ControlResult, DeviceControl, DeviceIoError};
use cameleon::gige::register_map::NicConfiguration;
use cameleon::gige::Error;
use cameleon::payload::{ImageInfo, Payload, PayloadType};
use cameleon::u3v::register_map::{abrm, sbrm};

#[derive(Default)]
struct Memory {
    bytes: RefCell<HashMap<u64, u8>>,
}

impl Memory {
    fn put(&self, addr: u64, data: &[u8]) {
        for (i, b) in data.iter().enumerate() {
            self.bytes.borrow_mut().insert(addr + i as u64, *b);
        }
    }
}

impl MemoryAccess for Memory {
    fn mem_accesses(&self) -> MemoryLog {
        unreachable!("the access log is a ghost view for verification")
    }
    fn read_mem(&mut self, address: u64, buf: &mut [u8]) -> DeviceResult<()> {
        for (i, b) in buf.iter_mut().enumerate() {
            *b = *self.bytes.borrow().get(&(address + i as u64)).unwrap_or(&0);
        }
        Ok(())
    }
    fn write_mem(&mut self, address: u64, data: &[u8]) -> DeviceResult<()> {
        self.put(address, data);
        Ok(())
    }
}

impl DeviceControl for Memory {
    fn accesses(&self) -> AccessLog {
        unreachable!("the access log is a ghost view for verification")
    }

    fn open(&mut self) -> ControlResult<()> {
        Ok(())
    }
    fn close(&mut self) -> ControlResult<()> {
        Ok(())
    }
    fn is_opened(&self) -> bool {
        true
    }
    fn read(&mut self, address: u64, buf: &mut [u8]) -> ControlResult<()> {
        self.read_mem(address, buf).map_err(|_| ControlError::Timeout)
    }
    fn read_reg(&mut self, address: u64) -> ControlResult<u32> {
        let mut buf = [0u8; 4];
        self.read(address, &mut buf)?;
        Ok(u32::from_be_bytes(buf))
    }
    fn write(&mut self, address: u64, data: &[u8]) -> ControlResult<()> {
        self.put(address, data);
        Ok(())
    }
    fn write_reg(&mut self, address: u64, data: u32) -> ControlResult<()> {
        self.put(address, &data.to_be_bytes());
        Ok(())
    }
    fn genapi(&mut self) -> ControlResult<String> {
        Err(ControlError::NotOpened)
    }
    fn enable_streaming(&mut self) -> ControlResult<()> {
        Ok(())
    }
    fn disable_streaming(&mut self) -> ControlResult<()> {
        Ok(())
    }
}

#[test]
fn byte_register_bits() {
    let mut bytes = [0u8, 0];
    set_bit(&mut bytes, 9);
    assert_eq!(bytes, [0, 2]);
    assert!(is_bit_set(&bytes, 9));
    assert!(!is_bit_set(&bytes, 1));
    unset_bit(&mut bytes, 9);
    assert_eq!(bytes, [0, 0]);
}

#[test]
fn device_configuration_multi_event() {
    let mut config = DeviceConfiguration([0x81, 0, 0, 0, 0, 0, 0, 0]);
    assert!(!config.is_multi_event_enabled());
    config.enable_multi_event();
    assert!(config.is_multi_event_enabled());
    assert_eq!(config.0[0], 0x83);
    config.disable_multi_event();
    assert!(!config.is_multi_event_enabled());
    assert_eq!(config.0[0], 0x81);
}

#[test]
fn version_register() {
    assert_eq!(parse_version(&[2, 0, 1, 0]), Version::new(1, 2, 0));
}

#[test]
fn abrm_static_data() {
    let mut mem = Memory::default();
    mem.put(abrm::DEVICE_CAPABILITY.0, &[0, 1, 0, 0, 0, 0, 0, 0]);
    mem.put(abrm::GENCP_VERSION.0, &[3, 0, 1, 0]);
    mem.put(abrm::MANUFACTURER_NAME.0, b"Maker\0");
    mem.put(abrm::MODEL_NAME.0, b"Model\0");
    mem.put(abrm::FAMILY_NAME.0, b"Fam\0");
    mem.put(abrm::MAXIMUM_DEVICE_RESPONSE_TIME.0, &200u32.to_le_bytes());
    mem.put(abrm::SBRM_ADDRESS.0, &0x2000u64.to_le_bytes());
    let data = AbrmStaticData::new(&mut mem).unwrap();
    assert_eq!(data.gencp_version, Version::new(1, 3, 0));
    assert_eq!(data.manufacturer_name, "Maker");
    assert_eq!(data.model_name, "Model");
    assert_eq!(data.family_name, Some("Fam".to_string()));
    assert_eq!(data.device_software_interface_version, None);
    assert_eq!(data.maximum_device_response_time, 200);
    assert_eq!(data.sbrm_address, 0x2000);
}

#[test]
fn sbrm_static_data() {
    let mut mem = Memory::default();
    let base = 0x2000;
    mem.put(base + sbrm::U3VCP_CAPABILITY_REGISTER.0, &[0b101, 0, 0, 0, 0, 0, 0, 0]);
    mem.put(base + sbrm::SIRM_ADDRESS.0, &0x3000u64.to_le_bytes());
    mem.put(base + sbrm::SIRM_LENGTH.0, &0x40u32.to_le_bytes());
    mem.put(base + sbrm::CURRENT_SPEED.0, &8u32.to_le_bytes());
    let data = SbrmStaticData::new(base, &mut mem).unwrap();
    assert_eq!(data.sirm_address, Some(0x3000));
    assert_eq!(data.sirm_length, Some(0x40));
    assert_eq!(data.eirm_address, None);
    assert_eq!(data.iidc2_address, Some(0));
    assert_eq!(data.current_speed, BusSpeed::SuperSpeed);
    mem.put(base + sbrm::CURRENT_SPEED.0, &3u32.to_le_bytes());
    assert!(matches!(SbrmStaticData::new(base, &mut mem), Err(DeviceError::InternalError(_))));
}

#[test]
fn payload_accessors() {
    let info = ImageInfo {
        width: 2,
        height: 1,
        x_offset: 0,
        y_offset: 0,
        pixel_format: 0x0108_0001,
        image_size: 2,
    };
    let payload = Payload::new(5, PayloadType::Image, Some(info), vec![1, 2, 3, 4], 3, 99);
    assert_eq!(payload.id(), 5);
    assert_eq!(payload.payload_type(), PayloadType::Image);
    assert_eq!(payload.image_info(), Some(&info));
    assert_eq!(payload.image(), Some(&[1u8, 2][..]));
    assert_eq!(payload.payload(), &[1, 2, 3]);
    assert_eq!(payload.timestamp(), 99);
    assert_eq!(payload.into_vec(), vec![1, 2, 3]);
    let chunk = Payload::new(6, PayloadType::Chunk, None, vec![9], 1, 0);
    assert_eq!(chunk.image(), None);
}

fn ack(status: u16, kind: u16, length: u16, request_id: u16, data: &[u8]) -> Vec<u8> {
    let mut buf = Vec::new();
    buf.extend_from_slice(&status.to_be_bytes());
    buf.extend_from_slice(&kind.to_be_bytes());
    buf.extend_from_slice(&length.to_be_bytes());
    buf.extend_from_slice(&request_id.to_be_bytes());
    buf.extend_from_slice(data);
    buf.resize(1024, 0);
    buf
}

#[test]
fn transaction_completes_and_advances_id() {
    let mut t = CommandTransaction::new(7, 3);
    let buf = ack(0, 0x0083, 4, 7, &[0, 0, 0, 1]);
    assert_eq!(t.on_ack(&buf).unwrap(), AckStep::Done);
    assert_eq!(t.next_req_id(), 8);
    let mut wrap = CommandTransaction::new(0xffff, 3);
    let buf = ack(0, 0x0083, 4, 0xffff, &[0, 0, 0, 1]);
    assert_eq!(wrap.on_ack(&buf).unwrap(), AckStep::Done);
    assert_eq!(wrap.next_req_id(), 1);
}

#[test]
fn transaction_pending_and_retries() {
    let mut t = CommandTransaction::new(1, 2);
    let pending = ack(0, 0x0089, 4, 1, &[0, 0, 0, 100]);
    assert_eq!(t.on_ack(&pending).unwrap(), AckStep::Wait(100));
    assert!(matches!(t.on_ack(&pending), Err(ControlError::Io(_))));
    assert_eq!(t.next_req_id(), 1);
}

#[test]
fn transaction_rejects_bad_acks() {
    let mut t = CommandTransaction::new(1, 2);
    let wrong_id = ack(0, 0x0083, 4, 2, &[0; 4]);
    assert!(matches!(t.on_ack(&wrong_id), Err(ControlError::Io(_))));
    let failed = ack(0x8001, 0x0083, 4, 1, &[0; 4]);
    assert!(matches!(t.on_ack(&failed), Err(ControlError::Io(_))));
    let broken = ack(0x1234, 0x0083, 4, 1, &[0; 4]);
    assert!(matches!(t.on_ack(&broken), Err(ControlError::InvalidData(_))));
    assert_eq!(t.next_req_id(), 1);
}

#[test]
fn gige_error_mapping() {
    assert_eq!(control_error_from(Error::InvalidData("x")), ControlError::InvalidData("x"));
    assert_eq!(control_error_from(Error::InvalidPacket("y")), ControlError::InvalidData("y"));
    assert!(matches!(
        control_error_from(Error::Io(cameleon::bytes::IoError::UnexpectedEof)),
        ControlError::Io(DeviceIoError::Message(_))
    ));
}

#[test]
fn bootstrap_registers() {
    let mut mem = Memory::default();
    mem.put(0x0000, &0x0002_0001u32.to_be_bytes());
    mem.put(0x0034, &[255, 255, 0, 0]);
    let bs = Bootstrap::new();
    assert_eq!(bs.version(&mut mem).unwrap(), Version::new(2, 1, 0));
    assert_eq!(bs.subnet_mask(&mut mem).unwrap(), [255, 255, 0, 0]);
    bs.set_nic_configuration(&mut mem, NicConfiguration::from_raw(6)).unwrap();
    assert_eq!(bs.nic_configuration(&mut mem).unwrap().as_raw(), 6);
    bs.set_heartbeat_timeout(&mut mem, 3000).unwrap();
    assert_eq!(bs.heartbeat_timeout(&mut mem).unwrap(), 3000);
    assert!(matches!(
        bs.set_heartbeat_timeout(&mut mem, 1 << 40),
        Err(ControlError::InvalidData(_))
    ));
    let sr = StreamRegister::new(1);
    assert_eq!(sr.register((0x18, 4)), (0x0D58, 4));
    sr.set_destination_address(&mut mem, [10, 0, 0, 2]).unwrap();
    assert_eq!(sr.destination_address(&mut mem).unwrap(), [10, 0, 0, 2]);
}

#[test]
fn register_cache_keeps_maps() {
    let mut mem = Memory::default();
    mem.put(abrm::DEVICE_CAPABILITY.0, &[1, 0, 0, 0, 0, 0, 0, 0]);
    let mut cache = RegisterCache::new();
    let first = cache.abrm(&mut mem).unwrap();
    mem.put(abrm::DEVICE_CAPABILITY.0, &[0, 0, 0, 0, 0, 0, 0, 0]);
    let second = cache.abrm(&mut mem).unwrap();
    assert_eq!(first.device_capability().unwrap(), second.device_capability().unwrap());
    assert!(second.device_capability().unwrap().is_user_defined_name_supported());
    // Without a SIRM the device is invalid.
    mem.put(abrm::SBRM_ADDRESS.0, &0x2000u64.to_le_bytes());
    assert!(matches!(cache.sirm(&mut mem), Err(ControlError::InvalidDevice(_))));
    mem.put(0x2000 + sbrm::U3VCP_CAPABILITY_REGISTER.0, &[1, 0, 0, 0, 0, 0, 0, 0]);
    mem.put(0x2000 + sbrm::MAXIMUM_COMMAND_TRANSFER_LENGTH.0, &1024u32.to_le_bytes());
    let mut config = ConnectionConfig::default();
    assert_eq!(config.timeout_duration_ms, 500);
    cache.initialize_config(&mut mem, &mut config).unwrap();
    assert_eq!(config.maximum_cmd_length, 1024);
    assert_eq!(config.retry_count, 3);
}

#[test]
fn open_mode_default_is_exclusive() {
    assert_eq!(OpenMode::default(), OpenMode::Exclusive);
}

#[test]
fn device_io_error_message_text() {
    assert_eq!(DeviceIoError::msg("pipe broken").to_string(), "pipe broken");
}

#[test]
fn device_io_error_transport_text() {
    let usb = DeviceIoError::Transport(cameleon::u3v::Error::Usb(UsbError::Stall));
    assert_eq!(usb.to_string(), "usb error: endpoint stalled");
    let packet = DeviceIoError::Transport(cameleon::u3v::Error::InvalidPacket("bad magic"));
    assert_eq!(packet.to_string(), "packet is broken: bad magic");
    let io = DeviceIoError::Transport(cameleon::u3v::Error::BufferIo(IoError::UnexpectedEof));
    assert_eq!(io.to_string(), "buffer io error: failed to fill whole buffer");
    let dev = DeviceIoError::Transport(cameleon::u3v::Error::InvalidDevice);
    assert_eq!(dev.to_string(), "device doesn't follow the specification");
}

#[test]
fn device_abrm_multi_event_and_getters() {
    let mut mem = Memory::default();
    // User defined name (bit 0), family name (bit 8) and multi event (bit 12) are supported.
    mem.put(abrm::DEVICE_CAPABILITY.0, &[1, 0b0001_0001, 0, 0, 0, 0, 0, 0]);
    mem.put(abrm::MANUFACTURER_NAME.0, b"Maker\0");
    mem.put(abrm::MODEL_NAME.0, b"Model\0");
    mem.put(abrm::FAMILY_NAME.0, b"Fam\0");
    mem.put(abrm::USER_DEFINED_NAME.0, b"cam0\0");
    mem.put(abrm::DEVICE_CONFIGURATION.0, &[0b100, 0, 0, 0, 0, 0, 0, 0]);
    let data = AbrmStaticData::new(&mut mem).unwrap();
    let map = DeviceAbrm::new(&data);
    assert_eq!(map.manufacturer_name(), "Maker");
    assert_eq!(map.model_name(), "Model");
    assert_eq!(map.family_name(), Some("Fam"));
    assert!(map.is_user_defined_name_supported());
    assert!(map.is_multi_event_supported());
    assert!(!map.is_stacked_commands_supported());
    assert_eq!(map.user_defined_name(&mut mem).unwrap(), Some("cam0".to_string()));
    assert!(!map.is_multi_event_enabled(&mut mem).unwrap());
    map.enable_multi_event(&mut mem).unwrap();
    assert!(map.is_multi_event_enabled(&mut mem).unwrap());
    // The other bits of the configuration stay as they were.
    assert_eq!(mem.bytes.borrow()[&abrm::DEVICE_CONFIGURATION.0], 0b110);
    map.disable_multi_event(&mut mem).unwrap();
    assert!(!map.is_multi_event_enabled(&mut mem).unwrap());
    assert_eq!(mem.bytes.borrow()[&abrm::DEVICE_CONFIGURATION.0], 0b100);
    map.set_timestamp_latch_bit(&mut mem).unwrap();
    assert_eq!(mem.bytes.borrow()[&abrm::TIMESTAMP_LATCH.0], 1);
}

#[test]
fn device_abrm_without_multi_event_reads_nothing() {
    let mut mem = Memory::default();
    mem.put(abrm::DEVICE_CAPABILITY.0, &[0, 0, 0, 0, 0, 0, 0, 0]);
    mem.put(abrm::DEVICE_CONFIGURATION.0, &[0b10, 0, 0, 0, 0, 0, 0, 0]);
    let data = AbrmStaticData::new(&mut mem).unwrap();
    let map = DeviceAbrm::new(&data);
    assert!(!map.is_multi_event_enabled(&mut mem).unwrap());
    assert_eq!(map.user_defined_name(&mut mem).unwrap(), None);
}

#[test]
fn device_sbrm_getters() {
    let mut mem = Memory::default();
    let base = 0x2000;
    mem.put(base + sbrm::U3VCP_CAPABILITY_REGISTER.0, &[0b101, 0, 0, 0, 0, 0, 0, 0]);
    mem.put(base + sbrm::SIRM_ADDRESS.0, &0x3000u64.to_le_bytes());
    mem.put(base + sbrm::CURRENT_SPEED.0, &8u32.to_le_bytes());
    let data = SbrmStaticData::new(base, &mut mem).unwrap();
    let map = DeviceSbrm::new(&data);
    assert!(map.is_sirm_available());
    assert!(!map.is_eirm_available());
    assert!(map.is_iidc2_available());
    assert_eq!(map.sirm_address(), Some(0x3000));
    assert_eq!(map.eirm_address(), None);
    assert_eq!(map.current_speed(), BusSpeed::SuperSpeed);
}

#[test]
fn bootstrap_mac_addr() {
    let mut mem = Memory::default();
    mem.put(0x0008, &[0xff, 0xee, 0x12, 0x34]);
    mem.put(0x000C, &[0x56, 0x78, 0x9a, 0xbc]);
    assert_eq!(Bootstrap::new().mac_addr(&mut mem).unwrap(), [0x12, 0x34, 0x56, 0x78, 0x9a, 0xbc]);
}
