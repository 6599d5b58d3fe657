//! `USB3 Vision` register maps as the host sees them: each method reads or writes the device
//! through a [`DeviceControl`] every time it is called.

use vstd::prelude::*;

use crate::bytes::le32;
use vstd::utf8::{decode_utf8, valid_utf8};

use super::registers::register_text;
use crate::common::Version;
use crate::control::{ControlError, ControlResult, DeviceControl};
pub use crate::u3v::BusSpeed;
use crate::u3v::register_map::{
    abrm, manifest_entry, sbrm, sirm, DeviceCapability, DeviceConfiguration, GenICamFileInfo,
    U3VCapablitiy, bit64,
};

use crate::bytes::{le32_bytes, le64_bytes};
use crate::control::{behaves_as_memory, map_answer, read_answer, read_logged, AccessLog, DeviceAccess};

use super::registers::{
    answer_le32, answer_le64, lemma_u32_register_reads_back, parse_u32, read_bytes, read_string, read_string_logged, read_u32,
    read_u32_logged, read_u64, read_u64_logged, write_logged, write_string, write_u32, write_u64,
};

verus! {

/// The version held in a version register: major in bits 16 to 23, minor in bits 0 to 7.
pub open spec fn register_version(v: u32) -> Version {
    Version { major: ((v >> 16) & 0xff) as u64, minor: (v & 0xff) as u64, patch: 0 }
}

/// Decodes a version register.
fn version_of(v: u32) -> (r: Version)
    ensures
        r == register_version(v),
{
    Version::new(((v >> 16u32) & 0xff) as u64, (v & 0xff) as u64, 0)
}

/// The bus speed that a current speed register holds, if any: one bit each.
pub open spec fn bus_speed_of(raw: u32) -> Option<BusSpeed> {
    if raw == 0b1 {
        Some(BusSpeed::LowSpeed)
    } else if raw == 0b10 {
        Some(BusSpeed::FullSpeed)
    } else if raw == 0b100 {
        Some(BusSpeed::HighSpeed)
    } else if raw == 0b1000 {
        Some(BusSpeed::SuperSpeed)
    } else if raw == 0b10000 {
        Some(BusSpeed::SuperSpeedPlus)
    } else {
        None
    }
}

/// The current speed register holds exactly one set bit, the same bit that announces that speed
/// in the supported speed mask of the device info descriptor: bit 0 low speed up to bit 4
/// super speed plus. Any other value is no speed.
pub proof fn lemma_current_speed_one_hot(raw: u32, s: BusSpeed)
    ensures
        bus_speed_of(raw) == Some(s) <==> raw == 1u32 << crate::u3v::descriptors::speed_mask_bit(s),
        bus_speed_of(raw) is Some <==> (raw == 1 || raw == 2 || raw == 4 || raw == 8 || raw == 16),
{
    assert(1u32 << 0u8 == 1 && 1u32 << 1u8 == 2 && 1u32 << 2u8 == 4 && 1u32 << 3u8 == 8 && 1u32 << 4u8
        == 16) by (bit_vector);
}

impl BusSpeed {
    /// Parses a little endian current speed register; an unknown value is `InvalidDevice`.
    pub fn parse_bytes(bytes: &[u8]) -> (r: ControlResult<BusSpeed>)
        requires
            bytes@.len() == 4,
        ensures
            match bus_speed_of(le32(bytes@)) {
                Some(s) => r == Ok::<BusSpeed, ControlError>(s),
                None => r matches Err(ControlError::InvalidDevice(_)),
            },
    {
        let raw = parse_u32(bytes);
        if raw == 0b1 {
            Ok(BusSpeed::LowSpeed)
        } else if raw == 0b10 {
            Ok(BusSpeed::FullSpeed)
        } else if raw == 0b100 {
            Ok(BusSpeed::HighSpeed)
        } else if raw == 0b1000 {
            Ok(BusSpeed::SuperSpeed)
        } else if raw == 0b10000 {
            Ok(BusSpeed::SuperSpeedPlus)
        } else {
            Err(ControlError::InvalidDevice("invalid bus speed defined"))
        }
    }
}

/// What a string register of bytes `b` gives to an accessor whose register may be missing:
/// the text as `Some`, or `InvalidDevice` when it is not valid UTF-8.
pub open spec fn optional_string_read(b: Seq<u8>, r: ControlResult<Option<String>>) -> bool {
    &&& r is Ok <==> valid_utf8(register_text(b))
    &&& r matches Ok(o) ==> (o matches Some(s) && s@ == decode_utf8(register_text(b)))
    &&& r matches Err(e) ==> e is InvalidDevice
}

/// Technology Agnostic Boot Register Map (`ABRM`).
#[derive(Clone, Copy, Debug)]
pub struct Abrm {
    device_capability: DeviceCapability,
}

impl Abrm {
    /// The device capability read when the map was made.
    pub closed spec fn spec_device_capability(&self) -> DeviceCapability {
        self.device_capability
    }

    /// Reads the device capability and keeps it.
    pub fn new<Ctrl: DeviceControl + ?Sized>(device: &mut Ctrl) -> (r: ControlResult<Self>)
        ensures
            read_logged(old(device).accesses(), final(device).accesses(), abrm::DEVICE_CAPABILITY.0, 8),
            match answer_le64(read_answer(final(device).accesses())) { Ok(v) => r matches Ok(a) && a.spec_device_capability() == DeviceCapability(v), Err(e) => r == Err::<Abrm, ControlError>(e) },
    {
        let (addr, _len) = abrm::DEVICE_CAPABILITY;
        let device_capability = DeviceCapability(read_u64(device, addr)?);
        Ok(Abrm { device_capability })
    }

    /// Reads the `SBRM` address and the `SBRM` there.
    pub fn sbrm<Ctrl: DeviceControl + ?Sized>(&self, device: &mut Ctrl) -> (r: ControlResult<Sbrm>)
        ensures
            sbrm_found(old(device).accesses(), final(device).accesses(), r),
    {
        let ghost l0 = device.accesses();
        let sbrm_address = match self.sbrm_address(device) {
            Ok(a) => a,
            Err(e) => {
                assert(device.accesses().take(l0.len() + 1 as int) =~= device.accesses());
                return Err(e);
            },
        };
        let ghost l1 = device.accesses();
        assert(l1.take(l0.len() + 1 as int) =~= l1);
        let r = Sbrm::new(device, sbrm_address);
        assert(device.accesses().take(l0.len() + 1 as int) =~= l1);
        r
    }

    /// Reads the manifest table address.
    pub fn manifest_table<Ctrl: DeviceControl + ?Sized>(&self, device: &mut Ctrl) -> (r:
        ControlResult<ManifestTable>)
        ensures
            read_logged(old(device).accesses(), final(device).accesses(), abrm::MANIFEST_TABLE_ADDRESS.0, 8),
            match answer_le64(read_answer(final(device).accesses())) { Ok(v) => r matches Ok(t) && t.spec_addr() == v, Err(e) => r == Err::<ManifestTable, ControlError>(e) },
    {
        Ok(ManifestTable::new(self.manifest_table_address(device)?))
    }

    /// `GenCP` version of the device.
    pub fn gencp_version<Ctrl: DeviceControl + ?Sized>(&self, device: &mut Ctrl) -> (r:
        ControlResult<Version>)
        ensures
            read_logged(old(device).accesses(), final(device).accesses(), abrm::GENCP_VERSION.0, 4),
            r == map_answer(answer_le32(read_answer(final(device).accesses())), |v: u32| register_version(v)),
    {
        let raw = read_u32(device, abrm::GENCP_VERSION.0)?;
        Ok(version_of(raw))
    }

    /// Manufacturer name of the device.
    pub fn manufacturer_name<Ctrl: DeviceControl + ?Sized>(&self, device: &mut Ctrl) -> (r:
        ControlResult<String>)
        ensures
            read_string_logged(old(device).accesses(), final(device).accesses(), abrm::MANUFACTURER_NAME.0, abrm::MANUFACTURER_NAME.1 as nat, r),
    {
        read_string(device, abrm::MANUFACTURER_NAME.0, abrm::MANUFACTURER_NAME.1)
    }

    /// Model name of the device.
    pub fn model_name<Ctrl: DeviceControl + ?Sized>(&self, device: &mut Ctrl) -> (r:
        ControlResult<String>)
        ensures
            read_string_logged(old(device).accesses(), final(device).accesses(), abrm::MODEL_NAME.0, abrm::MODEL_NAME.1 as nat, r),
    {
        read_string(device, abrm::MODEL_NAME.0, abrm::MODEL_NAME.1)
    }

    /// Family name of the device; `None` without reading when the capability lacks it.
    pub fn family_name<Ctrl: DeviceControl + ?Sized>(&self, device: &mut Ctrl) -> (r:
        ControlResult<Option<String>>)
        ensures
            !bit64(self.spec_device_capability().0, 8) ==> r == Ok::<Option<String>, ControlError>(None) && final(device).accesses() == old(device).accesses(),
            bit64(self.spec_device_capability().0, 8) ==> read_logged(old(device).accesses(), final(device).accesses(), abrm::FAMILY_NAME.0, abrm::FAMILY_NAME.1 as nat) && match read_answer(final(device).accesses()) { Ok(b) => optional_string_read(b, r), Err(e) => r == Err::<Option<String>, ControlError>(e) },
    {
        if self.device_capability.is_family_name_supported() {
            let s = read_string(device, abrm::FAMILY_NAME.0, abrm::FAMILY_NAME.1)?;
            Ok(Some(s))
        } else {
            Ok(None)
        }
    }

    /// Device version.
    pub fn device_version<Ctrl: DeviceControl + ?Sized>(&self, device: &mut Ctrl) -> (r:
        ControlResult<String>)
        ensures
            read_string_logged(old(device).accesses(), final(device).accesses(), abrm::DEVICE_VERSION.0, abrm::DEVICE_VERSION.1 as nat, r),
    {
        read_string(device, abrm::DEVICE_VERSION.0, abrm::DEVICE_VERSION.1)
    }

    /// Manufacturer info of the device.
    pub fn manufacturer_info<Ctrl: DeviceControl + ?Sized>(&self, device: &mut Ctrl) -> (r:
        ControlResult<String>)
        ensures
            read_string_logged(old(device).accesses(), final(device).accesses(), abrm::MANUFACTURER_INFO.0, abrm::MANUFACTURER_INFO.1 as nat, r),
    {
        read_string(device, abrm::MANUFACTURER_INFO.0, abrm::MANUFACTURER_INFO.1)
    }

    /// Serial number of the device.
    pub fn serial_number<Ctrl: DeviceControl + ?Sized>(&self, device: &mut Ctrl) -> (r:
        ControlResult<String>)
        ensures
            read_string_logged(old(device).accesses(), final(device).accesses(), abrm::SERIAL_NUMBER.0, abrm::SERIAL_NUMBER.1 as nat, r),
    {
        read_string(device, abrm::SERIAL_NUMBER.0, abrm::SERIAL_NUMBER.1)
    }

    /// User defined name of the device; `None` without reading when the capability lacks it.
    pub fn user_defined_name<Ctrl: DeviceControl + ?Sized>(&self, device: &mut Ctrl) -> (r:
        ControlResult<Option<String>>)
        ensures
            !bit64(self.spec_device_capability().0, 0) ==> r == Ok::<Option<String>, ControlError>(None) && final(device).accesses() == old(device).accesses(),
            bit64(self.spec_device_capability().0, 0) ==> read_logged(old(device).accesses(), final(device).accesses(), abrm::USER_DEFINED_NAME.0, abrm::USER_DEFINED_NAME.1 as nat) && match read_answer(final(device).accesses()) { Ok(b) => optional_string_read(b, r), Err(e) => r == Err::<Option<String>, ControlError>(e) },
    {
        if self.device_capability.is_user_defined_name_supported() {
            let s = read_string(device, abrm::USER_DEFINED_NAME.0, abrm::USER_DEFINED_NAME.1)?;
            Ok(Some(s))
        } else {
            Ok(None)
        }
    }

    /// Sets the user defined name: an ASCII string shorter than 64 bytes, so that the register
    /// always ends with a NUL. Any other name is refused with `InvalidData` and nothing is
    /// written. Without the capability nothing is written and the call succeeds.
    pub fn set_user_defined_name<Ctrl: DeviceControl + ?Sized>(
        &self,
        device: &mut Ctrl,
        name: &str,
    ) -> (r: ControlResult<()>)
        ensures
            !bit64(self.spec_device_capability().0, 0) ==> r is Ok && final(device).accesses() == old(device).accesses(),
            bit64(self.spec_device_capability().0, 0) && (!super::registers::is_ascii_text(name@) || name@.len() >= 64) ==> (r matches Err(ControlError::InvalidData(_)) && final(device).accesses() == old(device).accesses()),
            bit64(self.spec_device_capability().0, 0) && super::registers::is_ascii_text(name@) && name@.len() < 64 ==> write_logged(old(device).accesses(), final(device).accesses(), abrm::USER_DEFINED_NAME.0, super::registers::dumped_string(name@, super::registers::zeros(64)), r),
    {
        if !self.device_capability.is_user_defined_name_supported() {
            return Ok(());
        }
        if !name.is_ascii() {
            return Err(ControlError::InvalidData("string encoding must be ascii"));
        }
        proof {
            vstd::string::is_ascii_spec_bytes(name);
        }
        if name.len() >= abrm::USER_DEFINED_NAME.1 as usize {
            return Err(ControlError::InvalidData("the user defined name must be shorter than 64 bytes"));
        }
        write_string(device, abrm::USER_DEFINED_NAME.0, abrm::USER_DEFINED_NAME.1, name)
    }

    /// The address of the manifest table.
    pub fn manifest_table_address<Ctrl: DeviceControl + ?Sized>(&self, device: &mut Ctrl) -> (r:
        ControlResult<u64>)
        ensures
            read_u64_logged(old(device).accesses(), final(device).accesses(), abrm::MANIFEST_TABLE_ADDRESS.0, r),
    {
        read_u64(device, abrm::MANIFEST_TABLE_ADDRESS.0)
    }

    /// The address of the `SBRM`.
    pub fn sbrm_address<Ctrl: DeviceControl + ?Sized>(&self, device: &mut Ctrl) -> (r:
        ControlResult<u64>)
        ensures
            read_u64_logged(old(device).accesses(), final(device).accesses(), abrm::SBRM_ADDRESS.0, r),
    {
        read_u64(device, abrm::SBRM_ADDRESS.0)
    }

    /// Timestamp of the device clock in ns.
    pub fn timestamp<Ctrl: DeviceControl + ?Sized>(&self, device: &mut Ctrl) -> (r: ControlResult<
        u64,
    >)
        ensures
            read_u64_logged(old(device).accesses(), final(device).accesses(), abrm::TIMESTAMP.0, r),
    {
        read_u64(device, abrm::TIMESTAMP.0)
    }

    /// Latches the timestamp register by writing 1.
    pub fn set_timestamp_latch_bit<Ctrl: DeviceControl + ?Sized>(&self, device: &mut Ctrl) -> (r:
        ControlResult<()>)
        ensures
            write_logged(old(device).accesses(), final(device).accesses(), abrm::TIMESTAMP_LATCH.0, le32_bytes(1u32), r),
    {
        write_u32(device, abrm::TIMESTAMP_LATCH.0, 1)
    }

    /// Nanoseconds per tick of the device clock.
    pub fn timestamp_increment<Ctrl: DeviceControl + ?Sized>(&self, device: &mut Ctrl) -> (r:
        ControlResult<u64>)
        ensures
            read_u64_logged(old(device).accesses(), final(device).accesses(), abrm::TIMESTAMP_INCREMENT.0, r),
    {
        read_u64(device, abrm::TIMESTAMP_INCREMENT.0)
    }

    /// Device software interface version; `None` without reading when the capability lacks
    /// it.
    pub fn device_software_interface_version<Ctrl: DeviceControl + ?Sized>(
        &self,
        device: &mut Ctrl,
    ) -> (r: ControlResult<Option<String>>)
        ensures
            !bit64(self.spec_device_capability().0, 14) ==> r == Ok::<Option<String>, ControlError>(None) && final(device).accesses() == old(device).accesses(),
            bit64(self.spec_device_capability().0, 14) ==> read_logged(old(device).accesses(), final(device).accesses(), abrm::DEVICE_SOFTWARE_INTERFACE_VERSION.0, abrm::DEVICE_SOFTWARE_INTERFACE_VERSION.1 as nat) && match read_answer(final(device).accesses()) { Ok(b) => optional_string_read(b, r), Err(e) => r == Err::<Option<String>, ControlError>(e) },
    {
        if self.device_capability.is_device_software_interface_version_supported() {
            let s = read_string(
                device,
                abrm::DEVICE_SOFTWARE_INTERFACE_VERSION.0,
                abrm::DEVICE_SOFTWARE_INTERFACE_VERSION.1,
            )?;
            Ok(Some(s))
        } else {
            Ok(None)
        }
    }

    /// Maximum device response time, in milliseconds.
    pub fn maximum_device_response_time<Ctrl: DeviceControl + ?Sized>(
        &self,
        device: &mut Ctrl,
    ) -> (r: ControlResult<u64>)
        ensures
            read_logged(old(device).accesses(), final(device).accesses(), abrm::MAXIMUM_DEVICE_RESPONSE_TIME.0, 4),
            r == map_answer(answer_le32(read_answer(final(device).accesses())), |v: u32| v as u64),
    {
        let ms = read_u32(device, abrm::MAXIMUM_DEVICE_RESPONSE_TIME.0)?;
        Ok(ms as u64)
    }

    /// Device capability.
    pub fn device_capability(&self) -> (r: ControlResult<DeviceCapability>)
        ensures
            r == Ok::<DeviceCapability, ControlError>(self.spec_device_capability()),
    {
        Ok(self.device_capability)
    }

    /// Current configuration of the device.
    pub fn device_configuration<Ctrl: DeviceControl + ?Sized>(&self, device: &mut Ctrl) -> (r:
        ControlResult<DeviceConfiguration>)
        ensures
            read_logged(old(device).accesses(), final(device).accesses(), abrm::DEVICE_CONFIGURATION.0, 8),
            r == map_answer(answer_le64(read_answer(final(device).accesses())), |v: u64| DeviceConfiguration(v)),
    {
        Ok(DeviceConfiguration(read_u64(device, abrm::DEVICE_CONFIGURATION.0)?))
    }

    /// Writes a configuration to the device.
    pub fn write_device_configuration<Ctrl: DeviceControl + ?Sized>(
        &self,
        device: &mut Ctrl,
        config: DeviceConfiguration,
    ) -> (r: ControlResult<()>)
        ensures
            write_logged(old(device).accesses(), final(device).accesses(), abrm::DEVICE_CONFIGURATION.0, le64_bytes(config.0), r),
    {
        write_u64(device, abrm::DEVICE_CONFIGURATION.0, config.0)
    }
}

/// `new_log` adds to `old_log` what making the `SBRM` at `addr` does: an address whose
/// registers would run past `u64::MAX` is refused with nothing read; else the capability
/// register is read and the map keeps it, or the read's error is the result.
pub open spec fn sbrm_made(
    old_log: Seq<DeviceAccess>,
    new_log: Seq<DeviceAccess>,
    addr: u64,
    r: ControlResult<Sbrm>,
) -> bool {
    if addr > u64::MAX - 0x44 {
        (r matches Err(ControlError::InvalidDevice(_))) && new_log == old_log
    } else {
        &&& read_logged(old_log, new_log, (sbrm::U3VCP_CAPABILITY_REGISTER.0 + addr) as u64, 8)
        &&& match answer_le64(read_answer(new_log)) {
            Ok(v) => r matches Ok(b) && b.spec_addr() == addr && b.spec_capability()
                == U3VCapablitiy(v),
            Err(e) => r == Err::<Sbrm, ControlError>(e),
        }
    }
}

/// `new_log` adds to `old_log` a read of the `SBRM` address and, when it succeeded, what
/// making the `SBRM` there does; the read's error is the result otherwise.
pub open spec fn sbrm_found(
    old_log: Seq<DeviceAccess>,
    new_log: Seq<DeviceAccess>,
    r: ControlResult<Sbrm>,
) -> bool {
    let mid = new_log.take(old_log.len() + 1 as int);
    &&& new_log.len() >= old_log.len() + 1
    &&& read_logged(old_log, mid, abrm::SBRM_ADDRESS.0, 8)
    &&& match answer_le64(read_answer(mid)) {
        Ok(a) => sbrm_made(mid, new_log, a, r),
        Err(e) => new_log == mid && r == Err::<Sbrm, ControlError>(e),
    }
}

/// Technology Specific Boot Register Map (`SBRM`).
#[derive(Clone, Copy, Debug)]
pub struct Sbrm {
    sbrm_addr: u64,
    capability: U3VCapablitiy,
}

impl Sbrm {
    /// The base address.
    pub closed spec fn spec_addr(&self) -> u64 {
        self.sbrm_addr
    }

    /// The capability read when the map was made.
    pub closed spec fn spec_capability(&self) -> U3VCapablitiy {
        self.capability
    }

    /// Reads the capability register of the `SBRM` at `sbrm_addr`. An address whose registers
    /// would run past `u64::MAX` is refused with `InvalidDevice`.
    pub fn new<Ctrl: DeviceControl + ?Sized>(device: &mut Ctrl, sbrm_addr: u64) -> (r:
        ControlResult<Self>)
        ensures
            sbrm_made(old(device).accesses(), final(device).accesses(), sbrm_addr, r),
    {
        if sbrm_addr > u64::MAX - 0x44 {
            return Err(ControlError::InvalidDevice("SBRM address is out of the address space"));
        }
        let capability = U3VCapablitiy(
            read_u64(device, sbrm::U3VCP_CAPABILITY_REGISTER.0 + sbrm_addr)?,
        );
        Ok(Sbrm { sbrm_addr, capability })
    }

    /// Version of U3V of the device.
    pub fn u3v_version<Ctrl: DeviceControl + ?Sized>(&self, device: &mut Ctrl) -> (r:
        ControlResult<Version>)
        requires
            self.spec_addr() <= u64::MAX - 0x44,
        ensures
            read_logged(old(device).accesses(), final(device).accesses(), (sbrm::U3V_VERSION.0 + self.spec_addr()) as u64, 4),
            r == map_answer(answer_le32(read_answer(final(device).accesses())), |v: u32| register_version(v)),
    {
        let raw = read_u32(device, sbrm::U3V_VERSION.0 + self.sbrm_addr)?;
        Ok(version_of(raw))
    }

    /// Maximum command transfer length in bytes.
    pub fn maximum_command_transfer_length<Ctrl: DeviceControl + ?Sized>(
        &self,
        device: &mut Ctrl,
    ) -> (r: ControlResult<u32>)
        requires
            self.spec_addr() <= u64::MAX - 0x44,
        ensures
            read_u32_logged(old(device).accesses(), final(device).accesses(), (sbrm::MAXIMUM_COMMAND_TRANSFER_LENGTH.0 + self.spec_addr()) as u64, r),
    {
        read_u32(device, sbrm::MAXIMUM_COMMAND_TRANSFER_LENGTH.0 + self.sbrm_addr)
    }

    /// Maximum acknowledge transfer length in bytes.
    pub fn maximum_acknowledge_trasfer_length<Ctrl: DeviceControl + ?Sized>(
        &self,
        device: &mut Ctrl,
    ) -> (r: ControlResult<u32>)
        requires
            self.spec_addr() <= u64::MAX - 0x44,
        ensures
            read_u32_logged(old(device).accesses(), final(device).accesses(), (sbrm::MAXIMUM_ACKNOWLEDGE_TRANSFER_LENGTH.0 + self.spec_addr()) as u64, r),
    {
        read_u32(device, sbrm::MAXIMUM_ACKNOWLEDGE_TRANSFER_LENGTH.0 + self.sbrm_addr)
    }

    /// The number of stream channels.
    pub fn number_of_stream_channel<Ctrl: DeviceControl + ?Sized>(&self, device: &mut Ctrl) -> (r:
        ControlResult<u32>)
        requires
            self.spec_addr() <= u64::MAX - 0x44,
        ensures
            read_u32_logged(old(device).accesses(), final(device).accesses(), (sbrm::NUMBER_OF_STREAM_CHANNELS.0 + self.spec_addr()) as u64, r),
    {
        read_u32(device, sbrm::NUMBER_OF_STREAM_CHANNELS.0 + self.sbrm_addr)
    }

    /// The `SIRM`, when the capability has it.
    pub fn sirm<Ctrl: DeviceControl + ?Sized>(&self, device: &mut Ctrl) -> (r: ControlResult<
        Option<Sirm>,
    >)
        requires
            self.spec_addr() <= u64::MAX - 0x44,
        ensures
            !bit64(self.spec_capability().0, 0) ==> r == Ok::<Option<Sirm>, ControlError>(None) && final(device).accesses() == old(device).accesses(),
            bit64(self.spec_capability().0, 0) ==> read_logged(old(device).accesses(), final(device).accesses(), (sbrm::SIRM_ADDRESS.0 + self.spec_addr()) as u64, 8) && match answer_le64(read_answer(final(device).accesses())) { Ok(v) => r matches Ok(Some(t)) && t.spec_addr() == v, Err(e) => r == Err::<Option<Sirm>, ControlError>(e) },
    {
        match self.sirm_address(device)? {
            Some(addr) => Ok(Some(Sirm::new(addr))),
            None => Ok(None),
        }
    }

    /// The `SIRM` address, when the capability has it.
    pub fn sirm_address<Ctrl: DeviceControl + ?Sized>(&self, device: &mut Ctrl) -> (r:
        ControlResult<Option<u64>>)
        requires
            self.spec_addr() <= u64::MAX - 0x44,
        ensures
            !bit64(self.spec_capability().0, 0) ==> r == Ok::<Option<u64>, ControlError>(None) && final(device).accesses() == old(device).accesses(),
            bit64(self.spec_capability().0, 0) ==> read_logged(old(device).accesses(), final(device).accesses(), (sbrm::SIRM_ADDRESS.0 + self.spec_addr()) as u64, 8) && r == map_answer(answer_le64(read_answer(final(device).accesses())), |v: u64| Some(v)),
    {
        if self.capability.is_sirm_available() {
            Ok(Some(read_u64(device, sbrm::SIRM_ADDRESS.0 + self.sbrm_addr)?))
        } else {
            Ok(None)
        }
    }

    /// The `SIRM` length, when the capability has it.
    pub fn sirm_length<Ctrl: DeviceControl + ?Sized>(&self, device: &mut Ctrl) -> (r:
        ControlResult<Option<u32>>)
        requires
            self.spec_addr() <= u64::MAX - 0x44,
        ensures
            !bit64(self.spec_capability().0, 0) ==> r == Ok::<Option<u32>, ControlError>(None) && final(device).accesses() == old(device).accesses(),
            bit64(self.spec_capability().0, 0) ==> read_logged(old(device).accesses(), final(device).accesses(), (sbrm::SIRM_LENGTH.0 + self.spec_addr()) as u64, 4) && r == map_answer(answer_le32(read_answer(final(device).accesses())), |v: u32| Some(v)),
    {
        if self.capability.is_sirm_available() {
            Ok(Some(read_u32(device, sbrm::SIRM_LENGTH.0 + self.sbrm_addr)?))
        } else {
            Ok(None)
        }
    }

    /// The `EIRM` address, when the capability has it.
    pub fn eirm_address<Ctrl: DeviceControl + ?Sized>(&self, device: &mut Ctrl) -> (r:
        ControlResult<Option<u64>>)
        requires
            self.spec_addr() <= u64::MAX - 0x44,
        ensures
            !bit64(self.spec_capability().0, 1) ==> r == Ok::<Option<u64>, ControlError>(None) && final(device).accesses() == old(device).accesses(),
            bit64(self.spec_capability().0, 1) ==> read_logged(old(device).accesses(), final(device).accesses(), (sbrm::EIRM_ADDRESS.0 + self.spec_addr()) as u64, 8) && r == map_answer(answer_le64(read_answer(final(device).accesses())), |v: u64| Some(v)),
    {
        if self.capability.is_eirm_available() {
            Ok(Some(read_u64(device, sbrm::EIRM_ADDRESS.0 + self.sbrm_addr)?))
        } else {
            Ok(None)
        }
    }

    /// The `EIRM` length, when the capability has it.
    pub fn eirm_length<Ctrl: DeviceControl + ?Sized>(&self, device: &mut Ctrl) -> (r:
        ControlResult<Option<u32>>)
        requires
            self.spec_addr() <= u64::MAX - 0x44,
        ensures
            !bit64(self.spec_capability().0, 1) ==> r == Ok::<Option<u32>, ControlError>(None) && final(device).accesses() == old(device).accesses(),
            bit64(self.spec_capability().0, 1) ==> read_logged(old(device).accesses(), final(device).accesses(), (sbrm::EIRM_LENGTH.0 + self.spec_addr()) as u64, 4) && r == map_answer(answer_le32(read_answer(final(device).accesses())), |v: u32| Some(v)),
    {
        if self.capability.is_eirm_available() {
            Ok(Some(read_u32(device, sbrm::EIRM_LENGTH.0 + self.sbrm_addr)?))
        } else {
            Ok(None)
        }
    }

    /// The `IIDC2` address, when the capability has it.
    pub fn iidc2_address<Ctrl: DeviceControl + ?Sized>(&self, device: &mut Ctrl) -> (r:
        ControlResult<Option<u64>>)
        requires
            self.spec_addr() <= u64::MAX - 0x44,
        ensures
            !bit64(self.spec_capability().0, 2) ==> r == Ok::<Option<u64>, ControlError>(None) && final(device).accesses() == old(device).accesses(),
            bit64(self.spec_capability().0, 2) ==> read_logged(old(device).accesses(), final(device).accesses(), (sbrm::IIDC2_ADDRESS.0 + self.spec_addr()) as u64, 8) && r == map_answer(answer_le64(read_answer(final(device).accesses())), |v: u64| Some(v)),
    {
        if self.capability.is_iidc2_available() {
            Ok(Some(read_u64(device, sbrm::IIDC2_ADDRESS.0 + self.sbrm_addr)?))
        } else {
            Ok(None)
        }
    }

    /// Current bus speed.
    pub fn current_speed<Ctrl: DeviceControl + ?Sized>(&self, device: &mut Ctrl) -> (r:
        ControlResult<BusSpeed>)
        requires
            self.spec_addr() <= u64::MAX - 0x44,
        ensures
            read_logged(old(device).accesses(), final(device).accesses(), (sbrm::CURRENT_SPEED.0 + self.spec_addr()) as u64, 4),
            match read_answer(final(device).accesses()) { Ok(b) => match bus_speed_of(le32(b)) { Some(v) => r == Ok::<BusSpeed, ControlError>(v), None => r matches Err(ControlError::InvalidDevice(_)) }, Err(e) => r == Err::<BusSpeed, ControlError>(e) },
    {
        let buf = read_bytes(device, sbrm::CURRENT_SPEED.0 + self.sbrm_addr, 4)?;
        BusSpeed::parse_bytes(buf.as_slice())
    }

    /// The capability.
    pub fn u3v_capability(&self) -> (r: ControlResult<U3VCapablitiy>)
        ensures
            r == Ok::<U3VCapablitiy, ControlError>(self.spec_capability()),
    {
        Ok(self.capability)
    }
}

/// Streaming Interface Register Map (`SIRM`).
#[derive(Clone, Copy, Debug)]
pub struct Sirm {
    sirm_addr: u64,
}

/// The registers of a `SIRM` at `addr` lie within the address space.
pub open spec fn sirm_addressable(addr: u64) -> bool {
    addr <= u64::MAX - 0x30
}

impl Sirm {
    /// The base address.
    pub closed spec fn spec_addr(&self) -> u64 {
        self.sirm_addr
    }

    /// A `SIRM` at `sirm_addr`.
    pub fn new(sirm_addr: u64) -> (r: Self)
        ensures
            r.spec_addr() == sirm_addr,
    {
        Sirm { sirm_addr }
    }

    /// Required payload size alignment: `1 << (si_info >> 24)`. An exponent that does not fit
    /// a `usize` is refused with `InvalidDevice`.
    pub fn payload_size_alignment<Ctrl: DeviceControl + ?Sized>(&self, device: &mut Ctrl) -> (r:
        ControlResult<usize>)
        requires
            sirm_addressable(self.spec_addr()),
        ensures
            read_logged(old(device).accesses(), final(device).accesses(), (sirm::SI_INFO.0 + self.spec_addr()) as u64, 4),
            match answer_le32(read_answer(final(device).accesses())) { Ok(v) => if v >> 24 >= usize::BITS { r matches Err(ControlError::InvalidDevice(_)) } else { r == Ok::<usize, ControlError>(1usize << (v >> 24)) }, Err(e) => r == Err::<usize, ControlError>(e) },
    {
        let si_info = read_u32(device, sirm::SI_INFO.0 + self.sirm_addr)?;
        let exp = si_info >> 24u32;
        if exp >= usize::BITS {
            return Err(ControlError::InvalidDevice("payload size alignment is too large"));
        }
        Ok(1usize << exp)
    }

    /// Enables stream by writing 1 to the control register.
    pub fn enable_stream<Ctrl: DeviceControl + ?Sized>(&self, device: &mut Ctrl) -> (r:
        ControlResult<()>)
        requires
            sirm_addressable(self.spec_addr()),
        ensures
            write_logged(old(device).accesses(), final(device).accesses(), (sirm::SI_CONTROL.0 + self.spec_addr()) as u64, le32_bytes(1u32), r),
    {
        write_u32(device, sirm::SI_CONTROL.0 + self.sirm_addr, 1)
    }

    /// Disables stream by writing 0 to the control register.
    pub fn disable_stream<Ctrl: DeviceControl + ?Sized>(&self, device: &mut Ctrl) -> (r:
        ControlResult<()>)
        requires
            sirm_addressable(self.spec_addr()),
        ensures
            write_logged(old(device).accesses(), final(device).accesses(), (sirm::SI_CONTROL.0 + self.spec_addr()) as u64, le32_bytes(0u32), r),
    {
        write_u32(device, sirm::SI_CONTROL.0 + self.sirm_addr, 0)
    }

    /// Bit 0 of the control register.
    pub fn is_stream_enable<Ctrl: DeviceControl + ?Sized>(&self, device: &mut Ctrl) -> (r:
        ControlResult<bool>)
        requires
            sirm_addressable(self.spec_addr()),
        ensures
            read_logged(old(device).accesses(), final(device).accesses(), (sirm::SI_CONTROL.0 + self.spec_addr()) as u64, 4),
            r == map_answer(answer_le32(read_answer(final(device).accesses())), |v: u32| v & 1 == 1),
    {
        let si_ctrl = read_u32(device, sirm::SI_CONTROL.0 + self.sirm_addr)?;
        Ok((si_ctrl & 1) == 1)
    }

    /// Payload size in the current configuration.
    pub fn required_payload_size<Ctrl: DeviceControl + ?Sized>(&self, device: &mut Ctrl) -> (r:
        ControlResult<u64>)
        requires
            sirm_addressable(self.spec_addr()),
        ensures
            read_u64_logged(old(device).accesses(), final(device).accesses(), (sirm::REQUIRED_PAYLOAD_SIZE.0 + self.spec_addr()) as u64, r),
    {
        read_u64(device, sirm::REQUIRED_PAYLOAD_SIZE.0 + self.sirm_addr)
    }

    /// Leader size in the current configuration.
    pub fn required_leader_size<Ctrl: DeviceControl + ?Sized>(&self, device: &mut Ctrl) -> (r:
        ControlResult<u32>)
        requires
            sirm_addressable(self.spec_addr()),
        ensures
            read_u32_logged(old(device).accesses(), final(device).accesses(), (sirm::REQUIRED_LEADER_SIZE.0 + self.spec_addr()) as u64, r),
    {
        read_u32(device, sirm::REQUIRED_LEADER_SIZE.0 + self.sirm_addr)
    }

    /// Trailer size in the current configuration.
    pub fn required_trailer_size<Ctrl: DeviceControl + ?Sized>(&self, device: &mut Ctrl) -> (r:
        ControlResult<u32>)
        requires
            sirm_addressable(self.spec_addr()),
        ensures
            read_u32_logged(old(device).accesses(), final(device).accesses(), (sirm::REQUIRED_TRAILER_SIZE.0 + self.spec_addr()) as u64, r),
    {
        read_u32(device, sirm::REQUIRED_TRAILER_SIZE.0 + self.sirm_addr)
    }

    /// Maximum leader size.
    pub fn maximum_leader_size<Ctrl: DeviceControl + ?Sized>(&self, device: &mut Ctrl) -> (r:
        ControlResult<u32>)
        requires
            sirm_addressable(self.spec_addr()),
        ensures
            read_u32_logged(old(device).accesses(), final(device).accesses(), (sirm::MAXIMUM_LEADER_SIZE.0 + self.spec_addr()) as u64, r),
    {
        read_u32(device, sirm::MAXIMUM_LEADER_SIZE.0 + self.sirm_addr)
    }

    /// Sets the maximum leader size.
    pub fn set_maximum_leader_size<Ctrl: DeviceControl + ?Sized>(
        &self,
        device: &mut Ctrl,
        size: u32,
    ) -> (r: ControlResult<()>)
        requires
            sirm_addressable(self.spec_addr()),
        ensures
            write_logged(old(device).accesses(), final(device).accesses(), (sirm::MAXIMUM_LEADER_SIZE.0 + self.spec_addr()) as u64, le32_bytes(size), r),
    {
        write_u32(device, sirm::MAXIMUM_LEADER_SIZE.0 + self.sirm_addr, size)
    }

    /// Maximum trailer size.
    pub fn maximum_trailer_size<Ctrl: DeviceControl + ?Sized>(&self, device: &mut Ctrl) -> (r:
        ControlResult<u32>)
        requires
            sirm_addressable(self.spec_addr()),
        ensures
            read_u32_logged(old(device).accesses(), final(device).accesses(), (sirm::MAXIMUM_TRAILER_SIZE.0 + self.spec_addr()) as u64, r),
    {
        read_u32(device, sirm::MAXIMUM_TRAILER_SIZE.0 + self.sirm_addr)
    }

    /// Sets the maximum trailer size.
    pub fn set_maximum_trailer_size<Ctrl: DeviceControl + ?Sized>(
        &self,
        device: &mut Ctrl,
        size: u32,
    ) -> (r: ControlResult<()>)
        requires
            sirm_addressable(self.spec_addr()),
        ensures
            write_logged(old(device).accesses(), final(device).accesses(), (sirm::MAXIMUM_TRAILER_SIZE.0 + self.spec_addr()) as u64, le32_bytes(size), r),
    {
        write_u32(device, sirm::MAXIMUM_TRAILER_SIZE.0 + self.sirm_addr, size)
    }

    /// Payload transfer size.
    pub fn payload_transfer_size<Ctrl: DeviceControl + ?Sized>(&self, device: &mut Ctrl) -> (r:
        ControlResult<u32>)
        requires
            sirm_addressable(self.spec_addr()),
        ensures
            read_u32_logged(old(device).accesses(), final(device).accesses(), (sirm::PAYLOAD_TRANSFER_SIZE.0 + self.spec_addr()) as u64, r),
    {
        read_u32(device, sirm::PAYLOAD_TRANSFER_SIZE.0 + self.sirm_addr)
    }

    /// Sets the payload transfer size.
    pub fn set_payload_transfer_size<Ctrl: DeviceControl + ?Sized>(
        &self,
        device: &mut Ctrl,
        size: u32,
    ) -> (r: ControlResult<()>)
        requires
            sirm_addressable(self.spec_addr()),
        ensures
            write_logged(old(device).accesses(), final(device).accesses(), (sirm::PAYLOAD_TRANSFER_SIZE.0 + self.spec_addr()) as u64, le32_bytes(size), r),
    {
        write_u32(device, sirm::PAYLOAD_TRANSFER_SIZE.0 + self.sirm_addr, size)
    }

    /// Payload transfer count.
    pub fn payload_transfer_count<Ctrl: DeviceControl + ?Sized>(&self, device: &mut Ctrl) -> (r:
        ControlResult<u32>)
        requires
            sirm_addressable(self.spec_addr()),
        ensures
            read_u32_logged(old(device).accesses(), final(device).accesses(), (sirm::PAYLOAD_TRANSFER_COUNT.0 + self.spec_addr()) as u64, r),
    {
        read_u32(device, sirm::PAYLOAD_TRANSFER_COUNT.0 + self.sirm_addr)
    }

    /// Sets the payload transfer count.
    pub fn set_payload_transfer_count<Ctrl: DeviceControl + ?Sized>(
        &self,
        device: &mut Ctrl,
        size: u32,
    ) -> (r: ControlResult<()>)
        requires
            sirm_addressable(self.spec_addr()),
        ensures
            write_logged(old(device).accesses(), final(device).accesses(), (sirm::PAYLOAD_TRANSFER_COUNT.0 + self.spec_addr()) as u64, le32_bytes(size), r),
    {
        write_u32(device, sirm::PAYLOAD_TRANSFER_COUNT.0 + self.sirm_addr, size)
    }

    /// Payload final transfer 1 size.
    pub fn payload_final_transfer1_size<Ctrl: DeviceControl + ?Sized>(
        &self,
        device: &mut Ctrl,
    ) -> (r: ControlResult<u32>)
        requires
            sirm_addressable(self.spec_addr()),
        ensures
            read_u32_logged(old(device).accesses(), final(device).accesses(), (sirm::PAYLOAD_FINAL_TRANSFER1_SIZE.0 + self.spec_addr()) as u64, r),
    {
        read_u32(device, sirm::PAYLOAD_FINAL_TRANSFER1_SIZE.0 + self.sirm_addr)
    }

    /// Sets the payload final transfer 1 size.
    pub fn set_payload_final_transfer1_size<Ctrl: DeviceControl + ?Sized>(
        &self,
        device: &mut Ctrl,
        size: u32,
    ) -> (r: ControlResult<()>)
        requires
            sirm_addressable(self.spec_addr()),
        ensures
            write_logged(old(device).accesses(), final(device).accesses(), (sirm::PAYLOAD_FINAL_TRANSFER1_SIZE.0 + self.spec_addr()) as u64, le32_bytes(size), r),
    {
        write_u32(device, sirm::PAYLOAD_FINAL_TRANSFER1_SIZE.0 + self.sirm_addr, size)
    }

    /// Payload final transfer 2 size.
    pub fn payload_final_transfer2_size<Ctrl: DeviceControl + ?Sized>(
        &self,
        device: &mut Ctrl,
    ) -> (r: ControlResult<u32>)
        requires
            sirm_addressable(self.spec_addr()),
        ensures
            read_u32_logged(old(device).accesses(), final(device).accesses(), (sirm::PAYLOAD_FINAL_TRANSFER2_SIZE.0 + self.spec_addr()) as u64, r),
    {
        read_u32(device, sirm::PAYLOAD_FINAL_TRANSFER2_SIZE.0 + self.sirm_addr)
    }

    /// Sets the payload final transfer 2 size.
    pub fn set_payload_final_transfer2_size<Ctrl: DeviceControl + ?Sized>(
        &self,
        device: &mut Ctrl,
        size: u32,
    ) -> (r: ControlResult<()>)
        requires
            sirm_addressable(self.spec_addr()),
        ensures
            write_logged(old(device).accesses(), final(device).accesses(), (sirm::PAYLOAD_FINAL_TRANSFER2_SIZE.0 + self.spec_addr()) as u64, le32_bytes(size), r),
    {
        write_u32(device, sirm::PAYLOAD_FINAL_TRANSFER2_SIZE.0 + self.sirm_addr, size)
    }
}

/// On a device that behaves as a byte memory, the stream reads as enabled after
/// [`Sirm::enable_stream`] succeeded, and as disabled after [`Sirm::disable_stream`] succeeded:
/// `l0` to `l1` is the write of either, `l1` to `l2` the read of [`Sirm::is_stream_enable`].
pub proof fn lemma_stream_enable_reads_back(
    sirm: Sirm,
    enable: bool,
    l0: AccessLog,
    l1: AccessLog,
    l2: AccessLog,
    r: ControlResult<bool>,
)
    requires
        sirm_addressable(sirm.spec_addr()),
        write_logged(l0, l1, (sirm::SI_CONTROL.0 + sirm.spec_addr()) as u64, le32_bytes(if enable { 1u32 } else { 0u32 }), Ok(())),
        read_logged(l1, l2, (sirm::SI_CONTROL.0 + sirm.spec_addr()) as u64, 4),
        r == map_answer(answer_le32(read_answer(l2)), |v: u32| v & 1 == 1),
        behaves_as_memory(l2),
        read_answer(l2) is Ok,
    ensures
        r == Ok::<bool, ControlError>(enable),
{
    let addr = (sirm::SI_CONTROL.0 + sirm.spec_addr()) as u64;
    let x: u32 = if enable { 1u32 } else { 0u32 };
    lemma_u32_register_reads_back(l0, l1, l2, addr, x, answer_le32(read_answer(l2)));
    assert(1u32 & 1 == 1 && 0u32 & 1 == 0) by (bit_vector);
}

/// On a device that behaves as a byte memory, [`Sirm::payload_transfer_count`] reads back the
/// count that a successful [`Sirm::set_payload_transfer_count`] wrote just before: `l0` to `l1`
/// is the write, `l1` to `l2` the read.
pub proof fn lemma_payload_transfer_count_reads_back(
    sirm: Sirm,
    n: u32,
    l0: AccessLog,
    l1: AccessLog,
    l2: AccessLog,
    r: ControlResult<u32>,
)
    requires
        sirm_addressable(sirm.spec_addr()),
        write_logged(l0, l1, (sirm::PAYLOAD_TRANSFER_COUNT.0 + sirm.spec_addr()) as u64, le32_bytes(n), Ok(())),
        read_u32_logged(l1, l2, (sirm::PAYLOAD_TRANSFER_COUNT.0 + sirm.spec_addr()) as u64, r),
        behaves_as_memory(l2),
        read_answer(l2) is Ok,
    ensures
        r == Ok::<u32, ControlError>(n),
{
    lemma_u32_register_reads_back(l0, l1, l2, (sirm::PAYLOAD_TRANSFER_COUNT.0 + sirm.spec_addr()) as u64, n, r);
}

/// The manifest table: a count of entries followed by entries of 64 bytes.
#[derive(Clone, Copy, Debug)]
pub struct ManifestTable {
    manifest_address: u64,
}

impl ManifestTable {
    /// The address of the table.
    pub closed spec fn spec_addr(&self) -> u64 {
        self.manifest_address
    }

    /// A table at `manifest_address`.
    pub fn new(manifest_address: u64) -> (r: Self)
        ensures
            r.spec_addr() == manifest_address,
    {
        ManifestTable { manifest_address }
    }

    /// The address of the table.
    pub(crate) fn addr(&self) -> (r: u64)
        ensures
            r == self.spec_addr(),
    {
        self.manifest_address
    }

    /// Reads the entry count and gives the entries, the first one 8 bytes past the table.
    pub fn entries<Ctrl: DeviceControl + ?Sized>(&self, device: &mut Ctrl) -> (r: ControlResult<
        ManifestEntries,
    >)
        requires
            self.spec_addr() <= u64::MAX - 8,
        ensures
            read_logged(old(device).accesses(), final(device).accesses(), self.spec_addr(), 8),
            match answer_le64(read_answer(final(device).accesses())) { Ok(v) => r matches Ok(it) && it.spec_first_entry_addr() == self.spec_addr() + 8 && it.spec_index() == 0 && it.spec_entry_num() == v, Err(e) => r == Err::<ManifestEntries, ControlError>(e) },
    {
        let entry_num = read_u64(device, self.manifest_address)?;
        Ok(ManifestEntries { first_entry_addr: self.manifest_address + 8, entry_num, index: 0 })
    }
}

/// The entries of a manifest table, in order.
#[derive(Clone, Copy, Debug)]
pub struct ManifestEntries {
    first_entry_addr: u64,
    entry_num: u64,
    index: u64,
}

impl ManifestEntries {
    /// The address of the first entry.
    pub closed spec fn spec_first_entry_addr(&self) -> u64 {
        self.first_entry_addr
    }

    /// The number of entries.
    pub closed spec fn spec_entry_num(&self) -> u64 {
        self.entry_num
    }

    /// The index of the next entry.
    pub closed spec fn spec_index(&self) -> u64 {
        self.index
    }

    /// The next call of [`Self::next`] stays within the address space.
    pub open spec fn next_in_bounds(&self) -> bool {
        self.spec_index() < self.spec_entry_num() ==> self.spec_first_entry_addr() + 64
            * self.spec_index() <= u64::MAX
    }

    /// Whether the next call of [`Self::next`] stays within the address space.
    pub(crate) fn can_advance(&self) -> (r: bool)
        ensures
            r == self.next_in_bounds(),
    {
        self.index >= self.entry_num || self.index <= (u64::MAX - self.first_entry_addr) / 64
    }

    /// The next entry, at `first_entry_addr + 64 * index`, while entries remain.
    pub fn next(&mut self) -> (r: Option<ManifestEntry>)
        requires
            old(self).spec_index() < old(self).spec_entry_num() ==> old(self).spec_first_entry_addr() + 64 * old(self).spec_index() <= u64::MAX,
        ensures
            final(self).spec_first_entry_addr() == old(self).spec_first_entry_addr(),
            final(self).spec_entry_num() == old(self).spec_entry_num(),
            old(self).spec_index() >= old(self).spec_entry_num() ==> r is None && final(self).spec_index() == old(self).spec_index(),
            old(self).spec_index() < old(self).spec_entry_num() ==> (r matches Some(e)
                && e.spec_addr() == old(self).spec_first_entry_addr() + 64 * old(self).spec_index() && final(self).spec_index() == old(self).spec_index() + 1),
    {
        if self.index < self.entry_num {
            let e = ManifestEntry::new(self.first_entry_addr + self.index * 64);
            self.index = self.index + 1;
            Some(e)
        } else {
            None
        }
    }
}

/// A manifest entry: where a `GenApi` XML file is and what it is.
#[derive(Clone, Copy, Debug)]
pub struct ManifestEntry {
    entry_addr: u64,
}

/// The registers of a manifest entry at `addr` lie within the address space.
pub open spec fn entry_addressable(addr: u64) -> bool {
    addr <= u64::MAX - 0x2c
}

/// The file version held in a file version register: major, minor and subminor in bits 24 to
/// 31, 16 to 23 and 0 to 7.
pub open spec fn file_version(v: u32) -> Version {
    Version {
        major: ((v >> 24) & 0xff) as u64,
        minor: ((v >> 16) & 0xff) as u64,
        patch: (v & 0xff) as u64,
    }
}

/// Decodes a file version register.
pub fn file_version_of(v: u32) -> (r: Version)
    ensures
        r == file_version(v),
{
    Version::new(((v >> 24u32) & 0xff) as u64, ((v >> 16u32) & 0xff) as u64, (v & 0xff) as u64)
}

/// A hash of twenty zero bytes means that no hash is available.
pub fn sha1_hash_of(bytes: &[u8]) -> (r: Option<[u8; 20]>)
    requires
        bytes@.len() == 20,
    ensures
        (forall|i: int| 0 <= i < 20 ==> bytes@[i] == 0) ==> r is None,
        !(forall|i: int| 0 <= i < 20 ==> bytes@[i] == 0) ==> (r matches Some(h) && h@ == bytes@),
{
    let mut hash = [0u8; 20];
    let mut all_zero = true;
    let mut i: usize = 0;
    while i < 20
        invariant
            i <= 20,
            bytes@.len() == 20,
            hash@.len() == 20,
            forall|j: int| 0 <= j < i ==> hash@[j] == bytes@[j],
            all_zero <==> forall|j: int| 0 <= j < i ==> bytes@[j] == 0,
        decreases 20 - i,
    {
        hash[i] = bytes[i];
        if bytes[i] != 0 {
            all_zero = false;
        }
        i = i + 1;
    }
    if all_zero {
        None
    } else {
        assert(hash@ =~= bytes@);
        Some(hash)
    }
}

impl ManifestEntry {
    /// The address of the entry.
    pub closed spec fn spec_addr(&self) -> u64 {
        self.entry_addr
    }

    /// An entry at `entry_addr`.
    pub fn new(entry_addr: u64) -> (r: Self)
        ensures
            r.spec_addr() == entry_addr,
    {
        ManifestEntry { entry_addr }
    }

    /// The address of the entry.
    pub(crate) fn addr(&self) -> (r: u64)
        ensures
            r == self.spec_addr(),
    {
        self.entry_addr
    }

    /// `GenICam` file version.
    pub fn genicam_file_version<Ctrl: DeviceControl + ?Sized>(&self, device: &mut Ctrl) -> (r:
        ControlResult<Version>)
        requires
            entry_addressable(self.spec_addr()),
        ensures
            read_logged(old(device).accesses(), final(device).accesses(), (manifest_entry::GENICAM_FILE_VERSION.0 + self.spec_addr()) as u64, 4),
            r == map_answer(answer_le32(read_answer(final(device).accesses())), |v: u32| file_version(v)),
    {
        let raw = read_u32(device, manifest_entry::GENICAM_FILE_VERSION.0 + self.entry_addr)?;
        Ok(file_version_of(raw))
    }

    /// Register address where the XML file is located.
    pub fn file_address<Ctrl: DeviceControl + ?Sized>(&self, device: &mut Ctrl) -> (r:
        ControlResult<u64>)
        requires
            entry_addressable(self.spec_addr()),
        ensures
            read_u64_logged(old(device).accesses(), final(device).accesses(), (manifest_entry::REGISTER_ADDRESS.0 + self.spec_addr()) as u64, r),
    {
        read_u64(device, manifest_entry::REGISTER_ADDRESS.0 + self.entry_addr)
    }

    /// XML file size in bytes.
    pub fn file_size<Ctrl: DeviceControl + ?Sized>(&self, device: &mut Ctrl) -> (r: ControlResult<
        u64,
    >)
        requires
            entry_addressable(self.spec_addr()),
        ensures
            read_u64_logged(old(device).accesses(), final(device).accesses(), (manifest_entry::FILE_SIZE.0 + self.spec_addr()) as u64, r),
    {
        read_u64(device, manifest_entry::FILE_SIZE.0 + self.entry_addr)
    }

    /// XML file info.
    pub fn file_info<Ctrl: DeviceControl + ?Sized>(&self, device: &mut Ctrl) -> (r: ControlResult<
        GenICamFileInfo,
    >)
        requires
            entry_addressable(self.spec_addr()),
        ensures
            read_logged(old(device).accesses(), final(device).accesses(), (manifest_entry::FILE_FORMAT_INFO.0 + self.spec_addr()) as u64, 4),
            r == map_answer(answer_le32(read_answer(final(device).accesses())), |v: u32| GenICamFileInfo(v)),
    {
        Ok(GenICamFileInfo(read_u32(device, manifest_entry::FILE_FORMAT_INFO.0 + self.entry_addr)?))
    }

    /// SHA1 hash of the file; `None` when all twenty bytes are zero.
    pub fn sha1_hash<Ctrl: DeviceControl + ?Sized>(&self, device: &mut Ctrl) -> (r: ControlResult<
        Option<[u8; 20]>,
    >)
        requires
            entry_addressable(self.spec_addr()),
        ensures
            read_logged(old(device).accesses(), final(device).accesses(), (manifest_entry::SHA1_HASH.0 + self.spec_addr()) as u64, 20),
            match read_answer(final(device).accesses()) { Ok(b) => if forall|i: int| 0 <= i < 20 ==> b[i] == 0 { r == Ok::<Option<[u8; 20]>, ControlError>(None) } else { r matches Ok(Some(h)) && h@ == b }, Err(e) => r == Err::<Option<[u8; 20]>, ControlError>(e) },
    {
        let buf = read_bytes(device, manifest_entry::SHA1_HASH.0 + self.entry_addr, 20)?;
        Ok(sha1_hash_of(buf.as_slice()))
    }
}

} // verus!
