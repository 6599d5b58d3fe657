use std::collections::HashMap;
use std::io::Write;

use cameleon::camera::registers::{
    dump_string, dump_u16, dump_u32, dump_u64, parse_i16, parse_i32, parse_i64, parse_i8,
    parse_string, parse_u16, parse_u32, parse_u64, parse_u8,
};
use cameleon::camera::streaming::{
    enable_streaming, streaming_config, verify_alignment, verify_size, SirmSizes, SirmState,
    StreamParams,
};
use cameleon::camera::u3v_register_map::{Abrm, BusSpeed, ManifestEntry, ManifestTable, Sirm};
use cameleon::camera::xml::{check_xml_hash, genapi, newest_index, try_unzip_genxml};
use cameleon::common::Version;
use cameleon::control::{AccessLog, ControlError, ControlResult, DeviceControl};
use cameleon::u3v::register_map::{abrm, manifest_entry, sirm};

#[derive(Default)]
struct MockDevice {
    memory: HashMap<u64, u8>,
}

impl MockDevice {
    fn put(&mut self, addr: u64, data: &[u8]) {
        for (i, b) in data.iter().enumerate() {
            self.memory.insert(addr + i as u64, *b);
        }
    }

    fn get(&self, addr: u64, len: usize) -> Vec<u8> {
        (0..len).map(|i| *self.memory.get(&(addr + i as u64)).unwrap_or(&0)).collect()
    }
}

impl DeviceControl for MockDevice {
    fn accesses(&self) -> AccessLog {
        unreachable!("the access log is a ghost view for verification")
    }

    fn open(&mut self) -> ControlResult<()> {
        Ok(())
    }
    fn close(&mut self) -> ControlResult<()> {
        Ok(())
    }
    fn is_opened(&self) -> bool {
        true
    }
    fn read(&mut self, address: u64, buf: &mut [u8]) -> ControlResult<()> {
        let data = self.get(address, buf.len());
        buf.copy_from_slice(&data);
        Ok(())
    }
    fn read_reg(&mut self, address: u64) -> ControlResult<u32> {
        Ok(u32::from_be_bytes(self.get(address, 4).try_into().unwrap()))
    }
    fn write(&mut self, address: u64, data: &[u8]) -> ControlResult<()> {
        self.put(address, data);
        Ok(())
    }
    fn write_reg(&mut self, address: u64, data: u32) -> ControlResult<()> {
        self.put(address, &data.to_be_bytes());
        Ok(())
    }
    fn genapi(&mut self) -> ControlResult<String> {
        Err(ControlError::NotOpened)
    }
    fn enable_streaming(&mut self) -> ControlResult<()> {
        Ok(())
    }
    fn disable_streaming(&mut self) -> ControlResult<()> {
        Ok(())
    }
}

#[test]
fn numeric_parse_and_dump() {
    assert_eq!(parse_u8(&[7]), 7);
    assert_eq!(parse_u16(&[0x34, 0x12]), 0x1234);
    assert_eq!(parse_u32(&[0x78, 0x56, 0x34, 0x12]), 0x1234_5678);
    assert_eq!(parse_u64(&[1, 0, 0, 0, 0, 0, 0, 0x80]), 0x8000_0000_0000_0001);
    assert_eq!(parse_i8(&[0xff]), -1);
    assert_eq!(parse_i16(&[0xfe, 0xff]), -2);
    assert_eq!(parse_i32(&[0xfd, 0xff, 0xff, 0xff]), -3);
    assert_eq!(parse_i64(&[0xfc, 0xff, 0xff, 0xff, 0xff, 0xff, 0xff, 0xff]), -4);
    let mut b2 = [0u8; 2];
    dump_u16(0xabcd, &mut b2);
    assert_eq!(b2, [0xcd, 0xab]);
    let mut b4 = [0u8; 4];
    dump_u32(0x1234_5678, &mut b4);
    assert_eq!(b4, [0x78, 0x56, 0x34, 0x12]);
    assert_eq!(parse_u32(&b4), 0x1234_5678);
    let mut b8 = [0u8; 8];
    dump_u64(0x0102_0304_0506_0708, &mut b8);
    assert_eq!(b8, [8, 7, 6, 5, 4, 3, 2, 1]);
    assert_eq!(parse_u64(&b8), 0x0102_0304_0506_0708);
}

#[test]
fn string_register_roundtrip() {
    let mut buf = [0xffu8; 8];
    dump_string("cam", &mut buf).unwrap();
    assert_eq!(buf, [b'c', b'a', b'm', 0, 0xff, 0xff, 0xff, 0xff]);
    assert_eq!(parse_string(&buf).unwrap(), "cam");
    let mut exact = [0u8; 3];
    dump_string("abc", &mut exact).unwrap();
    assert_eq!(parse_string(&exact).unwrap(), "abc");
}

#[test]
fn string_register_errors() {
    let mut buf = [0u8; 2];
    assert!(matches!(dump_string("abc", &mut buf), Err(ControlError::InvalidData(_))));
    assert!(matches!(dump_string("é", &mut [0u8; 8]), Err(ControlError::InvalidData(_))));
    assert!(matches!(parse_string(&[0xff, 0xfe, 0]), Err(ControlError::InvalidDevice(_))));
}

#[test]
fn bus_speed() {
    assert_eq!(BusSpeed::parse_bytes(&[4, 0, 0, 0]).unwrap(), BusSpeed::HighSpeed);
    assert_eq!(BusSpeed::parse_bytes(&[16, 0, 0, 0]).unwrap(), BusSpeed::SuperSpeedPlus);
    assert!(matches!(BusSpeed::parse_bytes(&[3, 0, 0, 0]), Err(ControlError::InvalidDevice(_))));
}

#[test]
fn abrm_reads_through_device() {
    let mut dev = MockDevice::default();
    dev.put(abrm::DEVICE_CAPABILITY.0, &(1u64 | (1 << 8)).to_le_bytes());
    dev.put(abrm::GENCP_VERSION.0, &0x0001_0002u32.to_le_bytes());
    dev.put(abrm::SERIAL_NUMBER.0, b"SN1\0");
    dev.put(abrm::FAMILY_NAME.0, b"fam\0");
    let abrm = Abrm::new(&mut dev).unwrap();
    assert_eq!(abrm.gencp_version(&mut dev).unwrap(), Version::new(1, 2, 0));
    assert_eq!(abrm.serial_number(&mut dev).unwrap(), "SN1");
    assert_eq!(abrm.family_name(&mut dev).unwrap(), Some("fam".to_string()));
    assert_eq!(abrm.device_software_interface_version(&mut dev).unwrap(), None);
    abrm.set_user_defined_name(&mut dev, "name").unwrap();
    assert_eq!(abrm.user_defined_name(&mut dev).unwrap(), Some("name".to_string()));
    assert!(matches!(
        abrm.set_user_defined_name(&mut dev, &"x".repeat(65)),
        Err(ControlError::InvalidData(_))
    ));
    assert!(matches!(
        abrm.set_user_defined_name(&mut dev, &"y".repeat(64)),
        Err(ControlError::InvalidData(_))
    ));
    assert_eq!(abrm.user_defined_name(&mut dev).unwrap(), Some("name".to_string()));
    abrm.set_user_defined_name(&mut dev, &"z".repeat(63)).unwrap();
    assert_eq!(abrm.user_defined_name(&mut dev).unwrap(), Some("z".repeat(63)));
}

#[test]
fn sirm_alignment_and_enable() {
    let mut dev = MockDevice::default();
    let sirm_reg = Sirm::new(0x1000);
    dev.put(0x1000 + sirm::SI_INFO.0, &(3u32 << 24).to_le_bytes());
    assert_eq!(sirm_reg.payload_size_alignment(&mut dev).unwrap(), 8);
    sirm_reg.enable_stream(&mut dev).unwrap();
    assert!(sirm_reg.is_stream_enable(&mut dev).unwrap());
    sirm_reg.disable_stream(&mut dev).unwrap();
    assert!(!sirm_reg.is_stream_enable(&mut dev).unwrap());
    dev.put(0x1000 + sirm::SI_INFO.0, &(70u32 << 24).to_le_bytes());
    assert!(matches!(sirm_reg.payload_size_alignment(&mut dev), Err(ControlError::InvalidDevice(_))));
}

#[test]
fn streaming_config_values() {
    // Alignment 8, a payload of 200000 bytes, a leader of 50 bytes.
    let s = streaming_config(3, 50, 200_000, 50);
    assert_eq!(s.payload_transfer_size, 65536);
    assert_eq!(s.payload_transfer_count, 3);
    assert_eq!(s.payload_final_transfer1_size, 3392);
    assert_eq!(s.payload_final_transfer2_size, 0);
    assert_eq!(s.maximum_leader_size, 56);
    assert_eq!(s.maximum_trailer_size, 56);
    // An alignment larger than the transfer size makes the transfer that large.
    let s = streaming_config(17, 0, 10, 0);
    assert_eq!(s.payload_transfer_size, 131072);
    assert_eq!(s.maximum_leader_size, 131072);
    assert_eq!(s.payload_final_transfer1_size, 131072);
}

#[test]
fn device_checks_accept_host_config() {
    let sizes = streaming_config(3, 50, 200_000, 50);
    assert!(verify_alignment(&sizes, 8));
    let state = SirmState {
        sizes,
        required_leader_size: 50,
        required_trailer_size: 20,
        required_payload_size: 200_000,
    };
    assert!(verify_size(&state));
    let short = SirmState { required_payload_size: 300_000, ..state };
    assert!(!verify_size(&short));
    let odd = SirmSizes { maximum_leader_size: 57, ..sizes };
    assert!(!verify_alignment(&odd, 8));
}

#[test]
fn enable_streaming_writes_sirm() {
    let mut dev = MockDevice::default();
    let sirm_reg = Sirm::new(0x2000);
    dev.put(0x2000 + sirm::SI_INFO.0, &(3u32 << 24).to_le_bytes());
    dev.put(0x2000 + sirm::REQUIRED_LEADER_SIZE.0, &50u32.to_le_bytes());
    dev.put(0x2000 + sirm::REQUIRED_PAYLOAD_SIZE.0, &200_000u64.to_le_bytes());
    dev.put(0x2000 + sirm::REQUIRED_TRAILER_SIZE.0, &1000u32.to_le_bytes());
    let mut odd = MockDevice::default();
    odd.put(0x2000 + sirm::SI_INFO.0, &(3u32 << 24).to_le_bytes());
    odd.put(0x2000 + sirm::REQUIRED_TRAILER_SIZE.0, &1001u32.to_le_bytes());
    enable_streaming(&mut odd, &sirm_reg).unwrap();
    assert_eq!(odd.get(0x2000 + sirm::MAXIMUM_TRAILER_SIZE.0, 4), 1008u32.to_le_bytes().to_vec());
    enable_streaming(&mut dev, &sirm_reg).unwrap();
    let params = StreamParams::from_sirm(&sirm_reg, &mut dev).unwrap();
    // The trailer is sized from the required trailer size, rounded up to the alignment.
    assert_eq!(params, StreamParams::new(56, 1000, 65536, 3, 3392, 0));
    assert!(sirm_reg.is_stream_enable(&mut dev).unwrap());
}

#[test]
fn manifest_entries_and_newest() {
    let mut dev = MockDevice::default();
    dev.put(0x100, &2u64.to_le_bytes());
    let table = ManifestTable::new(0x100);
    let mut entries = table.entries(&mut dev).unwrap();
    let e0 = entries.next().unwrap();
    let e1 = entries.next().unwrap();
    assert!(entries.next().is_none());
    dev.put(0x108 + manifest_entry::FILE_SIZE.0, &77u64.to_le_bytes());
    assert_eq!(e0.file_size(&mut dev).unwrap(), 77);
    dev.put(0x148 + manifest_entry::GENICAM_FILE_VERSION.0, &0x0102_0003u32.to_le_bytes());
    assert_eq!(e1.genicam_file_version(&mut dev).unwrap(), Version::new(1, 2, 3));
    assert_eq!(ManifestEntry::new(0x108).sha1_hash(&mut dev).unwrap(), None);
    let versions = vec![Version::new(1, 0, 0), Version::new(1, 2, 0), Version::new(1, 2, 0)];
    assert_eq!(newest_index(&versions), Some(1));
    assert_eq!(newest_index(&Vec::new()), None);
}

#[test]
fn xml_hash_check() {
    let digest: [u8; 20] = [
        0xa9, 0x99, 0x3e, 0x36, 0x47, 0x06, 0x81, 0x6a, 0xba, 0x3e, 0x25, 0x71, 0x78, 0x50, 0xc2,
        0x6c, 0x9c, 0xd0, 0xd8, 0x9d,
    ];
    assert!(check_xml_hash(b"abc", Some(digest)).is_ok());
    assert!(check_xml_hash(b"abc", None).is_ok());
    assert!(matches!(check_xml_hash(b"abd", Some(digest)), Err(ControlError::InvalidDevice(_))));
}

fn zip_of(files: &[(&str, &[u8])]) -> Vec<u8> {
    let mut zip = zip::ZipWriter::new(std::io::Cursor::new(Vec::new()));
    for (name, data) in files {
        let options = zip::write::SimpleFileOptions::default()
            .compression_method(zip::CompressionMethod::Deflated);
        zip.start_file(*name, options).unwrap();
        zip.write_all(data).unwrap();
    }
    zip.finish().unwrap().into_inner()
}

#[test]
fn unzip_single_file() {
    let file = zip_of(&[("a.xml", b"<xml/>")]);
    assert_eq!(try_unzip_genxml(file).unwrap().unwrap(), b"<xml/>".to_vec());
    let two = zip_of(&[("a.xml", b"a"), ("b.xml", b"b")]);
    assert!(matches!(try_unzip_genxml(two), Some(Err(ControlError::InvalidDevice(_)))));
    assert!(try_unzip_genxml(b"not a zip".to_vec()).is_none());
}

#[test]
fn genapi_picks_newest_device_xml() {
    let mut dev = MockDevice::default();
    dev.put(abrm::MANIFEST_TABLE_ADDRESS.0, &0x1000u64.to_le_bytes());
    dev.put(0x1000, &2u64.to_le_bytes());
    // Entry 0: version 1.0.0, uncompressed, at 0x4000.
    let e0 = 0x1008;
    dev.put(e0 + manifest_entry::GENICAM_FILE_VERSION.0, &0x0100_0000u32.to_le_bytes());
    dev.put(e0 + manifest_entry::FILE_FORMAT_INFO.0, &0u32.to_le_bytes());
    dev.put(e0 + manifest_entry::REGISTER_ADDRESS.0, &0x4000u64.to_le_bytes());
    dev.put(e0 + manifest_entry::FILE_SIZE.0, &3u64.to_le_bytes());
    dev.put(0x4000, b"old");
    // Entry 1: version 2.0.0, zipped, at 0x5000.
    let e1 = 0x1048;
    let zipped = zip_of(&[("x.xml", b"<new/>")]);
    dev.put(e1 + manifest_entry::GENICAM_FILE_VERSION.0, &0x0200_0000u32.to_le_bytes());
    dev.put(e1 + manifest_entry::FILE_FORMAT_INFO.0, &(1u32 << 10).to_le_bytes());
    dev.put(e1 + manifest_entry::REGISTER_ADDRESS.0, &0x5000u64.to_le_bytes());
    dev.put(e1 + manifest_entry::FILE_SIZE.0, &(zipped.len() as u64).to_le_bytes());
    dev.put(0x5000, &zipped);
    assert_eq!(genapi(&mut dev).unwrap(), "<new/>");
}

#[test]
fn genapi_without_device_xml_fails() {
    let mut dev = MockDevice::default();
    dev.put(abrm::MANIFEST_TABLE_ADDRESS.0, &0x1000u64.to_le_bytes());
    assert!(matches!(genapi(&mut dev), Err(ControlError::InvalidDevice(_))));
}

#[test]
fn sirm_stream_enable_reads_back_on_memory_device() {
    let mut dev = MockDevice::default();
    let sirm_reg = Sirm::new(0x3000);
    sirm_reg.enable_stream(&mut dev).unwrap();
    assert_eq!(sirm_reg.is_stream_enable(&mut dev).unwrap(), true);
    sirm_reg.disable_stream(&mut dev).unwrap();
    assert_eq!(sirm_reg.is_stream_enable(&mut dev).unwrap(), false);
}

#[test]
fn sirm_payload_transfer_count_reads_back_on_memory_device() {
    let mut dev = MockDevice::default();
    let sirm_reg = Sirm::new(0x3000);
    sirm_reg.set_payload_transfer_count(&mut dev, 0x0102_0304).unwrap();
    assert_eq!(sirm_reg.payload_transfer_count(&mut dev).unwrap(), 0x0102_0304);
    assert_eq!(dev.get(0x3000 + 0x20, 4), vec![4, 3, 2, 1]);
}
