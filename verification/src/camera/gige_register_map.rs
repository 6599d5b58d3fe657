//! `GigE` register maps as the host sees them: each method reads or writes a 4 byte register of
//! the device through a [`DeviceControl`] every time it is called.

use vstd::prelude::*;

use crate::bytes::{be32, be32_bytes};
use crate::common::Version;
use crate::control::{
    map_answer, reg_answer, reg_read_logged, ControlError, ControlResult, DeviceAccess, DeviceControl,
};
use crate::gige::register_map::{bootstrap, stream, DeviceMode, NicCapability, NicConfiguration};

verus! {

/// The version held in the bootstrap version register: major in the high half, minor in the low
/// half.
pub open spec fn bootstrap_version(raw: u32) -> Version {
    Version { major: (raw >> 16) as u64, minor: (raw & 0xffff) as u64, patch: 0 }
}

/// The four bytes of a register value, most significant first.
fn reg_bytes(raw: u32) -> (r: [u8; 4])
    ensures
        r@ == be32_bytes(raw),
{
    let r = [
        (raw / 0x100_0000) as u8,
        ((raw / 0x1_0000) % 0x100) as u8,
        ((raw / 0x100) % 0x100) as u8,
        (raw % 0x100) as u8,
    ];
    assert(r@ =~= be32_bytes(raw));
    r
}

/// What reading the MAC address does to `l0`, giving `l` and `r`: a read of the high register,
/// then, when it succeeded, a read of the low register; the first failed read's error, else the
/// low two bytes of the high register and the four of the low one.
pub open spec fn mac_addr_read(l0: Seq<DeviceAccess>, l: Seq<DeviceAccess>, r: ControlResult<[u8; 6]>) -> bool {
    let n = l0.len() as int;
    &&& l.len() > n
    &&& l.take(n) == l0
    &&& match l[n] {
        DeviceAccess::ReadReg { address, answer } => address == bootstrap::DEVICE_MAC_ADDRESS_HIGH_0.0
            && match answer {
            Err(e) => l.len() == n + 1 && r == Err::<[u8; 6], ControlError>(e),
            Ok(high) => l.len() == n + 2 && match l[n + 1] {
                DeviceAccess::ReadReg { address: a2, answer: low } => a2
                    == bootstrap::DEVICE_MAC_ADDRESS_LOW_0.0 && match low {
                    Err(e) => r == Err::<[u8; 6], ControlError>(e),
                    Ok(lo) => r is Ok && r->Ok_0@ == be32_bytes(high).subrange(2, 4) + be32_bytes(lo),
                },
                _ => false,
            },
        },
        _ => false,
    }
}

/// Bootstrap register map of a `GigE` device.
#[derive(Clone, Copy, Debug, PartialEq, Eq, Structural)]
pub struct Bootstrap {}

impl Bootstrap {
    /// The bootstrap register map.
    pub fn new() -> (r: Self)
        ensures
            r == (Bootstrap {}),
    {
        Bootstrap {}
    }

    /// Version of the `GigE Vision` specification the device implements.
    pub fn version<Ctrl: DeviceControl + ?Sized>(self, device: &mut Ctrl) -> (r: ControlResult<
        Version,
    >)
        ensures
            reg_read_logged(old(device).accesses(), final(device).accesses(), bootstrap::VERSION.0 as u64),
            r == map_answer(reg_answer(final(device).accesses()), |v: u32| bootstrap_version(v)),
    {
        let raw = device.read_reg(bootstrap::VERSION.0 as u64)?;
        let v = Version::new((raw >> 16u32) as u64, (raw & 0xffff) as u64, 0);
        assert(v == bootstrap_version(raw));
        Ok(v)
    }

    /// Device mode.
    pub fn device_mode<Ctrl: DeviceControl + ?Sized>(self, device: &mut Ctrl) -> (r:
        ControlResult<DeviceMode>)
        ensures
            reg_read_logged(old(device).accesses(), final(device).accesses(), bootstrap::DEVICE_MODE.0 as u64),
            r == map_answer(reg_answer(final(device).accesses()), |v: u32| DeviceMode(v)),
    {
        Ok(DeviceMode::from_raw(device.read_reg(bootstrap::DEVICE_MODE.0 as u64)?))
    }

    /// MAC address of the first network interface: the low two bytes of the high register,
    /// then the four bytes of the low register, each register most significant byte first.
    /// The high register is read first; a failed read ends it with its error.
    pub fn mac_addr<Ctrl: DeviceControl + ?Sized>(self, device: &mut Ctrl) -> (r: ControlResult<
        [u8; 6],
    >)
        ensures
            mac_addr_read(old(device).accesses(), final(device).accesses(), r),
    {
        let ghost l0 = device.accesses();
        let high_r = device.read_reg(bootstrap::DEVICE_MAC_ADDRESS_HIGH_0.0 as u64);
        let ghost l1 = device.accesses();
        assert(l1.take(l0.len() as int) =~= l0);
        let high = match high_r {
            Ok(v) => reg_bytes(v),
            Err(e) => return Err(e),
        };
        let low_r = device.read_reg(bootstrap::DEVICE_MAC_ADDRESS_LOW_0.0 as u64);
        assert(device.accesses().take(l0.len() as int) =~= l0);
        assert(device.accesses()[l0.len() as int] == l1[l0.len() as int]);
        let low = match low_r {
            Ok(v) => reg_bytes(v),
            Err(e) => return Err(e),
        };
        let m = [high[2], high[3], low[0], low[1], low[2], low[3]];
        assert(m@ =~= high@.subrange(2, 4) + low@);
        Ok(m)
    }

    /// Capability of the first network interface.
    pub fn nic_capability<Ctrl: DeviceControl + ?Sized>(self, device: &mut Ctrl) -> (r:
        ControlResult<NicCapability>)
        ensures
            reg_read_logged(old(device).accesses(), final(device).accesses(), bootstrap::NETWORK_INTERFACE_CAPABILITY_0.0 as u64),
            r == map_answer(reg_answer(final(device).accesses()), |v: u32| NicCapability(v)),
    {
        Ok(NicCapability::from_raw(device.read_reg(bootstrap::NETWORK_INTERFACE_CAPABILITY_0.0 as u64)?))
    }

    /// Configuration of the first network interface.
    pub fn nic_configuration<Ctrl: DeviceControl + ?Sized>(self, device: &mut Ctrl) -> (r:
        ControlResult<NicConfiguration>)
        ensures
            reg_read_logged(old(device).accesses(), final(device).accesses(), bootstrap::NETWORK_INTERFACE_CONFIGURATION_0.0 as u64),
            r == map_answer(reg_answer(final(device).accesses()), |v: u32| NicConfiguration(v)),
    {
        Ok(
            NicConfiguration::from_raw(
                device.read_reg(bootstrap::NETWORK_INTERFACE_CONFIGURATION_0.0 as u64)?,
            ),
        )
    }

    /// Writes the configuration of the first network interface.
    pub fn set_nic_configuration<Ctrl: DeviceControl + ?Sized>(
        self,
        device: &mut Ctrl,
        config: NicConfiguration,
    ) -> (r: ControlResult<()>)
        ensures
            final(device).accesses() == old(device).accesses().push(DeviceAccess::WriteReg { address: bootstrap::NETWORK_INTERFACE_CONFIGURATION_0.0 as u64, data: config.0, answer: r }),
    {
        device.write_reg(bootstrap::NETWORK_INTERFACE_CONFIGURATION_0.0 as u64, config.as_raw())
    }

    /// Current IP address of the first network interface, as its four octets.
    pub fn ip_addr<Ctrl: DeviceControl + ?Sized>(self, device: &mut Ctrl) -> (r: ControlResult<
        [u8; 4],
    >)
        ensures
            reg_read_logged(old(device).accesses(), final(device).accesses(), bootstrap::CURRENT_IP_ADDRESS_0.0 as u64),
            match reg_answer(final(device).accesses()) { Ok(v) => r matches Ok(a) && a@ == be32_bytes(v), Err(e) => r == Err::<[u8; 4], ControlError>(e) },
    {
        Ok(reg_bytes(device.read_reg(bootstrap::CURRENT_IP_ADDRESS_0.0 as u64)?))
    }

    /// Current subnet mask of the first network interface.
    pub fn subnet_mask<Ctrl: DeviceControl + ?Sized>(self, device: &mut Ctrl) -> (r:
        ControlResult<[u8; 4]>)
        ensures
            reg_read_logged(old(device).accesses(), final(device).accesses(), bootstrap::CURRENT_SUBNET_MASK_0.0 as u64),
            match reg_answer(final(device).accesses()) { Ok(v) => r matches Ok(a) && a@ == be32_bytes(v), Err(e) => r == Err::<[u8; 4], ControlError>(e) },
    {
        Ok(reg_bytes(device.read_reg(bootstrap::CURRENT_SUBNET_MASK_0.0 as u64)?))
    }

    /// Current default gateway of the first network interface, as its four octets.
    pub fn default_gateway<Ctrl: DeviceControl + ?Sized>(self, device: &mut Ctrl) -> (r:
        ControlResult<[u8; 4]>)
        ensures
            reg_read_logged(old(device).accesses(), final(device).accesses(), bootstrap::CURRENT_DEFAULT_GATEWAY_0.0 as u64),
            match reg_answer(final(device).accesses()) { Ok(v) => r matches Ok(a) && a@ == be32_bytes(v), Err(e) => r == Err::<[u8; 4], ControlError>(e) },
    {
        Ok(reg_bytes(device.read_reg(bootstrap::CURRENT_DEFAULT_GATEWAY_0.0 as u64)?))
    }

    /// The number of network interfaces.
    pub fn number_of_nic<Ctrl: DeviceControl + ?Sized>(self, device: &mut Ctrl) -> (r:
        ControlResult<u32>)
        ensures
            reg_read_logged(old(device).accesses(), final(device).accesses(), bootstrap::NUMBER_OF_NETWORK_INTERFACES.0 as u64),
            r == reg_answer(final(device).accesses()),
    {
        device.read_reg(bootstrap::NUMBER_OF_NETWORK_INTERFACES.0 as u64)
    }

    /// The number of message channels.
    pub fn number_of_message_channel<Ctrl: DeviceControl + ?Sized>(
        self,
        device: &mut Ctrl,
    ) -> (r: ControlResult<u32>)
        ensures
            reg_read_logged(old(device).accesses(), final(device).accesses(), bootstrap::NUMBER_OF_MESSAGE_CHANNELS.0 as u64),
            r == reg_answer(final(device).accesses()),
    {
        device.read_reg(bootstrap::NUMBER_OF_MESSAGE_CHANNELS.0 as u64)
    }

    /// The number of stream channels.
    pub fn number_of_stream_channel<Ctrl: DeviceControl + ?Sized>(
        self,
        device: &mut Ctrl,
    ) -> (r: ControlResult<u32>)
        ensures
            reg_read_logged(old(device).accesses(), final(device).accesses(), bootstrap::NUMBER_OF_STREAM_CHANNELS.0 as u64),
            r == reg_answer(final(device).accesses()),
    {
        device.read_reg(bootstrap::NUMBER_OF_STREAM_CHANNELS.0 as u64)
    }

    /// Heartbeat timeout, in milliseconds.
    pub fn heartbeat_timeout<Ctrl: DeviceControl + ?Sized>(self, device: &mut Ctrl) -> (r:
        ControlResult<u64>)
        ensures
            reg_read_logged(old(device).accesses(), final(device).accesses(), bootstrap::HEARTBEAT_TIMEOUT.0 as u64),
            r == map_answer(reg_answer(final(device).accesses()), |v: u32| v as u64),
    {
        let raw = device.read_reg(bootstrap::HEARTBEAT_TIMEOUT.0 as u64)?;
        Ok(raw as u64)
    }

    /// Sets the heartbeat timeout, in milliseconds; a value that does not fit the 32 bit
    /// register is refused with `InvalidData` before anything is written.
    pub fn set_heartbeat_timeout<Ctrl: DeviceControl + ?Sized>(
        self,
        device: &mut Ctrl,
        value_ms: u64,
    ) -> (r: ControlResult<()>)
        ensures
            value_ms > u32::MAX ==> (r matches Err(ControlError::InvalidData(_)) && final(device).accesses() == old(device).accesses()),
            value_ms <= u32::MAX ==> final(device).accesses() == old(device).accesses().push(DeviceAccess::WriteReg { address: bootstrap::HEARTBEAT_TIMEOUT.0 as u64, data: value_ms as u32, answer: r }),
    {
        if value_ms > u32::MAX as u64 {
            return Err(ControlError::InvalidData("too long time is specified for heartbeat timeout"));
        }
        device.write_reg(bootstrap::HEARTBEAT_TIMEOUT.0 as u64, value_ms as u32)
    }

    /// Pending timeout, in milliseconds.
    pub fn pending_timeout<Ctrl: DeviceControl + ?Sized>(self, device: &mut Ctrl) -> (r:
        ControlResult<u64>)
        ensures
            reg_read_logged(old(device).accesses(), final(device).accesses(), bootstrap::PENDING_TIMEOUT.0 as u64),
            r == map_answer(reg_answer(final(device).accesses()), |v: u32| v as u64),
    {
        let raw = device.read_reg(bootstrap::PENDING_TIMEOUT.0 as u64)?;
        Ok(raw as u64)
    }
}

/// The registers of stream channel `index`.
#[derive(Clone, Copy, Debug, PartialEq, Eq, Structural)]
pub struct StreamRegister {
    index: u32,
}

/// The base address of stream channel `index` lies within the 32 bit address space, with room
/// for its registers.
pub open spec fn stream_channel_addressable(index: u32) -> bool {
    0x0D00 + 0x0040 * index + 0x30 <= u32::MAX
}

impl StreamRegister {
    /// The channel index.
    pub closed spec fn spec_index(self) -> u32 {
        self.index
    }

    /// The registers of stream channel `index`.
    pub fn new(index: u32) -> (r: Self)
        ensures
            r.spec_index() == index,
    {
        StreamRegister { index }
    }

    /// The address of the register at `offset` of this channel.
    pub fn register(self, register: (u32, u16)) -> (r: (u32, u16))
        requires
            stream_channel_addressable(self.spec_index()),
            register.0 <= 0x30,
        ensures
            r.0 == 0x0D00 + 0x0040 * self.spec_index() + register.0,
            r.1 == register.1,
    {
        let base = stream::base_address(self.index);
        (base + register.0, register.1)
    }

    /// Destination address of the stream, as its four octets.
    pub fn destination_address<Ctrl: DeviceControl + ?Sized>(self, device: &mut Ctrl) -> (r:
        ControlResult<[u8; 4]>)
        requires
            stream_channel_addressable(self.spec_index()),
        ensures
            reg_read_logged(old(device).accesses(), final(device).accesses(), (0x0D00 + 0x0040 * self.spec_index() + stream::STREAM_CHANNEL_DESTINATION_ADDRESS.0) as u64),
            match reg_answer(final(device).accesses()) { Ok(v) => r matches Ok(a) && a@ == be32_bytes(v), Err(e) => r == Err::<[u8; 4], ControlError>(e) },
    {
        let (addr, _) = self.register(stream::STREAM_CHANNEL_DESTINATION_ADDRESS);
        Ok(reg_bytes(device.read_reg(addr as u64)?))
    }

    /// Sets the destination address of the stream from its four octets.
    pub fn set_destination_address<Ctrl: DeviceControl + ?Sized>(
        self,
        device: &mut Ctrl,
        address: [u8; 4],
    ) -> (r: ControlResult<()>)
        requires
            stream_channel_addressable(self.spec_index()),
        ensures
            final(device).accesses() == old(device).accesses().push(DeviceAccess::WriteReg { address: (0x0D00 + 0x0040 * self.spec_index() + stream::STREAM_CHANNEL_DESTINATION_ADDRESS.0) as u64, data: be32(address@), answer: r }),
    {
        let (addr, _) = self.register(stream::STREAM_CHANNEL_DESTINATION_ADDRESS);
        let raw = crate::bytes::get_be32(&address, 0);
        device.write_reg(addr as u64, raw)
    }
}

} // verus!
