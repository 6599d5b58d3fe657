use cameleon::u3v::descriptors::{
    collect_receive_ifaces, find_control_interface, find_u3v_iad, find_u3v_iad_in_config_desc,
    ConfigDesc, ControlIfaceInfo, DeviceInfoDescriptor, Direction, EndpointDesc, Iad,
    InterfaceDesc, InterfaceGroup, ReceiveIfaceInfo, ReceiveIfaceKind, TransferType,
};
use cameleon::u3v::{BusSpeed, Error};

const U3V_IAD: [u8; 8] = [8, 0x0B, 0, 3, 0xEF, 0x05, 0x00, 0];

fn ep(address: u8, direction: Direction) -> EndpointDesc {
    EndpointDesc { address, direction, transfer_type: TransferType::Bulk, bytes: vec![] }
}

fn iface(number: u8, protocol: u8, endpoints: Vec<EndpointDesc>) -> InterfaceDesc {
    InterfaceDesc {
        interface_number: number,
        alternate_setting: 0,
        class: 0xEF,
        subclass: 0x05,
        protocol,
        num_endpoints: endpoints.len() as u8,
        endpoints,
        bytes: vec![],
    }
}

fn config() -> ConfigDesc {
    ConfigDesc {
        configuration_value: 1,
        bytes: vec![9, 2, 0, 0, 0, 0, 0, 0, 0],
        interfaces: vec![
            InterfaceGroup {
                interface_number: 0,
                alt_settings: vec![iface(0, 0, vec![ep(0x81, Direction::In), ep(0x01, Direction::Out)])],
            },
            InterfaceGroup {
                interface_number: 1,
                alt_settings: vec![iface(1, 1, vec![ep(0x82, Direction::In)])],
            },
            InterfaceGroup {
                interface_number: 2,
                alt_settings: vec![iface(2, 2, vec![ep(0x83, Direction::In)])],
            },
        ],
    }
}

#[test]
fn iad_walk() {
    assert_eq!(Iad::from_bytes(&U3V_IAD).unwrap().interface_count, 3);
    let mut bytes = vec![9, 2, 0, 0, 0, 0, 0, 0, 0, 1];
    bytes.extend_from_slice(&U3V_IAD);
    let iad = Iad::from_bytes(&bytes).unwrap();
    assert!(iad.is_u3v());
    assert_eq!(Iad::from_bytes(&[0, 0x0B, 0, 0, 0, 0, 0, 0]), None);
    assert_eq!(Iad::from_bytes(&[9, 0x0B, 0, 0, 0, 0, 0, 0]), None);
    assert_eq!(Iad::from_bytes(&U3V_IAD[..7]), None);
}

#[test]
fn iad_search_in_configuration() {
    let mut c = config();
    assert_eq!(find_u3v_iad_in_config_desc(&c), None);
    assert_eq!(find_u3v_iad(&vec![c.clone()]), None);
    c.interfaces[1].alt_settings[0].endpoints[0].bytes = U3V_IAD.to_vec();
    let iad = find_u3v_iad_in_config_desc(&c).unwrap();
    assert_eq!(iad.first_interface, 0);
    let configs = vec![config(), c];
    assert_eq!(find_u3v_iad(&configs).map(|(_, i)| i), Some(1));
}

#[test]
fn control_interface() {
    let c = config();
    let iad = Iad::from_bytes(&U3V_IAD).unwrap();
    let ctrl = find_control_interface(&c, &iad).unwrap();
    let info = ControlIfaceInfo::new(ctrl).unwrap();
    assert_eq!(info, ControlIfaceInfo { iface_number: 0, bulk_in_ep: 0x81, bulk_out_ep: 0x01 });
    let one = iface(0, 0, vec![ep(0x81, Direction::In)]);
    assert_eq!(ControlIfaceInfo::new(&one), Err(Error::InvalidDevice));
    let both_in = iface(0, 0, vec![ep(0x81, Direction::In), ep(0x82, Direction::In)]);
    assert_eq!(ControlIfaceInfo::new(&both_in), Err(Error::InvalidDevice));
    let other = Iad { first_interface: 7, ..iad };
    assert!(matches!(find_control_interface(&c, &other), Err(Error::InvalidDevice)));
}

#[test]
fn receive_interfaces() {
    let c = config();
    let iad = Iad::from_bytes(&U3V_IAD).unwrap();
    let v = collect_receive_ifaces(&c, &iad).unwrap();
    assert_eq!(v.len(), 2);
    assert_eq!(v[0].1, ReceiveIfaceKind::Event);
    assert_eq!(v[1], (ReceiveIfaceInfo { iface_number: 2, alt_setting: 0, bulk_in_ep: 0x83 }, ReceiveIfaceKind::Stream));
    let narrow = Iad { interface_count: 2, ..iad };
    assert_eq!(collect_receive_ifaces(&c, &narrow).unwrap().len(), 1);
    let out = iface(3, 2, vec![ep(0x04, Direction::Out)]);
    assert_eq!(ReceiveIfaceInfo::new(&out), None);
}

fn info_bytes() -> Vec<u8> {
    vec![20, 0x24, 0x01, 1, 0, 2, 0, 0, 0, 1, 0, 1, 2, 3, 0, 4, 5, 6, 0, 0b1100]
}

#[test]
fn device_info_descriptor() {
    let d = DeviceInfoDescriptor::from_bytes(&info_bytes()).unwrap();
    assert_eq!((d.gencp_version_major, d.gencp_version_minor), (2, 1));
    assert_eq!((d.u3v_version_major, d.u3v_version_minor), (1, 0));
    assert_eq!(d.serial_number_idx, 6);
    assert_eq!(d.supported_speed().unwrap(), BusSpeed::SuperSpeed);
    assert_eq!(DeviceInfoDescriptor::from_bytes(&info_bytes()[..19]), Err(Error::InvalidDevice));
    let mut bad = info_bytes();
    bad[1] = 0x25;
    assert_eq!(DeviceInfoDescriptor::from_bytes(&bad), Err(Error::InvalidDevice));
    let no_speed = DeviceInfoDescriptor { supported_speed_mask: 0, ..d };
    assert_eq!(no_speed.supported_speed(), Err(Error::InvalidDevice));
}

fn strings(index: u8, _language_id: u16) -> Result<String, Error> {
    Ok(format!("s{index}"))
}

#[test]
fn device_info_interpretation() {
    let d = DeviceInfoDescriptor::from_bytes(&info_bytes()).unwrap();
    let info = d.interpret(strings, 0x0409).unwrap();
    assert_eq!(info.vendor_name, "s2");
    assert_eq!(info.family_name, None);
    assert_eq!(info.serial_number, "s6");
    assert_eq!(info.user_defined_name, None);
    assert_eq!(info.supported_speed, BusSpeed::SuperSpeed);
    assert_eq!((info.gencp_version.major, info.gencp_version.minor), (2, 1));
    let no_guid = DeviceInfoDescriptor { guid_idx: 0, ..d };
    assert!(matches!(no_guid.interpret(strings, 0x0409), Err(Error::InvalidDevice)));
}

#[test]
fn device_info_strings_follow_their_indices() {
    let d = DeviceInfoDescriptor::from_bytes(&info_bytes()).unwrap();
    let info = d.interpret(strings, 0x0409).unwrap();
    assert_eq!(info.guid, format!("s{}", d.guid_idx));
    assert_eq!(info.vendor_name, format!("s{}", d.vendor_name_idx));
    assert_eq!(info.model_name, format!("s{}", d.model_name_idx));
    assert_eq!(info.device_version, format!("s{}", d.device_version_idx));
    assert_eq!(info.manufacturer_info, format!("s{}", d.manufacturer_info_idx));
    assert_eq!(info.serial_number, format!("s{}", d.serial_number_idx));
    let named = DeviceInfoDescriptor { family_name_idx: 9, user_defined_name_idx: 10, ..d };
    let info = named.interpret(strings, 0x0409).unwrap();
    assert_eq!(info.family_name, Some("s9".to_string()));
    assert_eq!(info.user_defined_name, Some("s10".to_string()));
}

#[test]
fn device_info_stops_at_first_failure() {
    let d = DeviceInfoDescriptor::from_bytes(&info_bytes()).unwrap();
    let reads = std::cell::RefCell::new(Vec::new());
    let no_vendor = DeviceInfoDescriptor { vendor_name_idx: 0, ..d };
    let r = no_vendor.interpret(
        |index: u8, language_id: u16| {
            reads.borrow_mut().push((index, language_id));
            strings(index, language_id)
        },
        0x0409,
    );
    assert!(matches!(r, Err(Error::InvalidDevice)));
    assert_eq!(*reads.borrow(), vec![(d.guid_idx, 0x0409)]);
    let failing = d.interpret(
        |index: u8, language_id: u16| {
            if index == d.model_name_idx {
                Err(Error::InvalidPacket("broken string"))
            } else {
                strings(index, language_id)
            }
        },
        0x0409,
    );
    assert!(matches!(failing, Err(Error::InvalidPacket(_))));
    let no_speed = DeviceInfoDescriptor { supported_speed_mask: 0, ..d };
    assert!(matches!(no_speed.interpret(strings, 0x0409), Err(Error::InvalidDevice)));
}
