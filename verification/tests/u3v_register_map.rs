use cameleon::common::{CompressionType, GenICamFileType};
use cameleon::u3v::register_map::{
    sirm, DeviceCapability, DeviceConfiguration, GenICamFileInfo, U3VCapablitiy,
};
use cameleon::u3v::Error;

#[test]
fn multi_event_bit() {
    let mut config = DeviceConfiguration(0b1001);
    assert!(!config.is_multi_event_enabled());
    config.set_multi_event_enable_bit();
    assert!(config.is_multi_event_enabled());
    assert_eq!(config.0, 0b1011);
    config.disable_multi_event();
    assert!(!config.is_multi_event_enabled());
    assert_eq!(config.0, 0b1001);
}

#[test]
fn capability_bits() {
    let cap = DeviceCapability((1 << 0) | (1 << 8) | (1 << 14));
    assert!(cap.is_user_defined_name_supported());
    assert!(cap.is_family_name_supported());
    assert!(!cap.is_multi_event_supported());
    assert!(!cap.is_stacked_commands_supported());
    assert!(cap.is_device_software_interface_version_supported());
    let u3v = U3VCapablitiy(0b101);
    assert!(u3v.is_sirm_available());
    assert!(!u3v.is_eirm_available());
    assert!(u3v.is_iidc2_available());
}

#[test]
fn genicam_file_info() {
    let info = GenICamFileInfo(0x0102_0401);
    assert_eq!(info.file_type().unwrap(), GenICamFileType::BufferXml);
    assert_eq!(info.compression_type().unwrap(), CompressionType::Zip);
    let v = info.schema_version();
    assert_eq!((v.major, v.minor, v.patch), (1, 2, 0));
    assert_eq!(GenICamFileInfo(0).file_type().unwrap(), GenICamFileType::DeviceXml);
    assert_eq!(GenICamFileInfo(0).compression_type().unwrap(), CompressionType::Uncompressed);
    assert!(matches!(GenICamFileInfo(2).file_type(), Err(Error::InvalidDevice)));
    assert!(matches!(GenICamFileInfo(2 << 10).compression_type(), Err(Error::InvalidDevice)));
}

#[test]
fn sirm_register_layout() {
    assert_eq!(sirm::PAYLOAD_TRANSFER_SIZE, (0x001C, 4));
    assert_eq!(sirm::MAXIMUM_TRAILER_SIZE, (0x002C, 4));
}
