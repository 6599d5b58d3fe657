//! The `ABRM` and `SBRM` of an opened `USB3 Vision` device as its handle sees them: the fixed
//! values read when it was opened, and the registers that change, read and written through
//! [`MemoryAccess`].

use vstd::prelude::*;
use vstd::utf8::{decode_utf8, valid_utf8};

use super::device::{
    bit_of, is_bit_set, op_answer, op_read, parse_string, set_bit, unset_bit, AbrmStaticData,
    DeviceError, DeviceResult, MemoryAccess, MemoryLog, MemoryOp, SbrmStaticData,
};
use super::registers::register_text;
use super::u3v_register_map::BusSpeed;
use crate::bytes::le32_bytes;
use crate::common::Version;
use crate::u3v::register_map::abrm;

verus! {

/// `new_log` is `old_log` with one more access, a read of `len` bytes at `address`.
pub open spec fn mem_read_logged(old_log: MemoryLog, new_log: MemoryLog, address: u64, len: nat) -> bool {
    &&& new_log.len() == old_log.len() + 1
    &&& new_log.take(old_log.len() as int) == old_log
    &&& op_read(new_log.last(), address, len)
}

/// What setting multi event to `on` does to `old_log`, giving `new_log` and `r`: it reads the
/// configuration register; a failed read ends it with its error; when bit 1 already reads
/// `on` nothing more happens; else the configuration with that bit set to `on` is written
/// back, and the write's answer is the result.
pub open spec fn multi_event_set(
    old_log: MemoryLog,
    new_log: MemoryLog,
    on: bool,
    r: DeviceResult<()>,
) -> bool {
    let n = old_log.len() as int;
    &&& new_log.len() > n
    &&& new_log.take(n) == old_log
    &&& op_read(new_log[n], abrm::DEVICE_CONFIGURATION.0, 8)
    &&& match op_answer(new_log[n]) {
        Err(e) => new_log.len() == n + 1 && r == Err::<(), DeviceError>(e),
        Ok(c) => if bit_of(c, 1) == on {
            new_log.len() == n + 1 && r is Ok
        } else {
            new_log == old_log.push(new_log[n]).push(
                MemoryOp::Write {
                    address: abrm::DEVICE_CONFIGURATION.0,
                    data: c.update(0, if on { c[0] | 2 } else { c[0] & !2u8 }),
                    answer: r,
                },
            )
        },
    }
}

/// The byte at `addr` as the first `j` accesses of `log` show it: the byte of the latest of
/// them that succeeded and covers `addr`, a write or a read; `None` where none does.
pub open spec fn memory_byte(log: MemoryLog, j: int, addr: int) -> Option<u8>
    decreases j,
{
    if j <= 0 {
        None
    } else {
        match log[j - 1] {
            MemoryOp::Write { address, data, answer: Ok(_) } if address <= addr < address
                + data.len() => Some(data[addr - address]),
            MemoryOp::Read { address, answer: Ok(d), .. } if address <= addr < address
                + d.len() => Some(d[addr - address]),
            _ => memory_byte(log, j - 1, addr),
        }
    }
}

/// The byte at `k` of the read at `j` of `log`, when that read succeeded, is the byte that the
/// earlier accesses showed at its address (where one did).
pub open spec fn read_agrees(log: MemoryLog, j: int, k: int) -> bool {
    match log[j] {
        MemoryOp::Read { address, answer: Ok(d), .. } => 0 <= k < d.len() ==> match memory_byte(
            log,
            j,
            address + k,
        ) {
            Some(b) => d[k] == b,
            None => true,
        },
        _ => true,
    }
}

/// The device answered every read in `log` as a byte memory would: each byte read is the byte
/// last written there, or the byte an earlier read found there; bytes never seen before are
/// whatever the device held from the start.
pub open spec fn behaves_as_memory(log: MemoryLog) -> bool {
    forall|j: int, k: int| 0 <= j < log.len() ==> #[trigger] read_agrees(log, j, k)
}

/// On a device that behaves as a byte memory, after [`Abrm::enable_multi_event`] succeeded
/// multi event reads as enabled, and after [`Abrm::disable_multi_event`] succeeded it reads as
/// disabled: `l0` to `l1` is the setting to `on`, `l1` to `l2` the read of
/// [`Abrm::is_multi_event_enabled`] on a device whose capability has multi event.
pub proof fn lemma_multi_event_reads_back(
    on: bool,
    l0: MemoryLog,
    l1: MemoryLog,
    l2: MemoryLog,
    r: DeviceResult<bool>,
)
    requires
        multi_event_set(l0, l1, on, Ok(())),
        mem_read_logged(l1, l2, abrm::DEVICE_CONFIGURATION.0, 8),
        match op_answer(l2.last()) {
            Err(e) => r == Err::<bool, DeviceError>(e),
            Ok(c) => r == Ok::<bool, DeviceError>(bit_of(c, 1)),
        },
        behaves_as_memory(l2),
        op_answer(l2.last()) is Ok,
    ensures
        r == Ok::<bool, DeviceError>(on),
{
    let n = l0.len() as int;
    let j = l2.len() - 1;
    let addr = abrm::DEVICE_CONFIGURATION.0;
    let c2 = op_answer(l2.last())->Ok_0;
    let c1 = op_answer(l1[n])->Ok_0;
    assert(l2[n] == l1[n]);
    assert(read_agrees(l2, j, 0));
    if l1.len() == n + 1 {
        assert(memory_byte(l2, j, addr as int) == Some(c1[0]));
        assert(c2[0] == c1[0]);
    } else {
        let data = c1.update(0, if on { c1[0] | 2 } else { c1[0] & !2u8 });
        assert(l2[n + 1] == l1[n + 1]);
        assert(memory_byte(l2, j, addr as int) == Some(data[0]));
        assert(c2[0] == data[0]);
        let b: u8 = c1[0];
        assert(((b | 2) >> 1u8) & 1 == 1) by (bit_vector);
        assert(((b & !2u8) >> 1u8) & 1 != 1) by (bit_vector);
    }
}

/// Technology agnostic boot register map of an opened device.
pub struct Abrm<'a> {
    abrm: &'a AbrmStaticData,
}

impl<'a> Abrm<'a> {
    /// The fixed values that the map answers with.
    pub closed spec fn spec_data(&self) -> &'a AbrmStaticData {
        self.abrm
    }

    /// The map over `abrm`.
    pub fn new(abrm: &'a AbrmStaticData) -> (r: Self)
        ensures
            r.spec_data() == abrm,
    {
        Abrm { abrm }
    }

    /// `GenCP` version of the device.
    pub fn gencp_version(&self) -> (r: Version)
        ensures
            r == self.spec_data().gencp_version,
    {
        self.abrm.gencp_version
    }

    /// Manufacturer name of the device.
    pub fn manufacturer_name(&self) -> (r: &'a str)
        ensures
            r@ == self.spec_data().manufacturer_name@,
    {
        self.abrm.manufacturer_name.as_str()
    }

    /// Model name of the device.
    pub fn model_name(&self) -> (r: &'a str)
        ensures
            r@ == self.spec_data().model_name@,
    {
        self.abrm.model_name.as_str()
    }

    /// Family name of the device, when it has one.
    pub fn family_name(&self) -> (r: Option<&'a str>)
        ensures
            match self.spec_data().family_name {
                Some(s) => r matches Some(t) && t@ == s@,
                None => r is None,
            },
    {
        match &self.abrm.family_name {
            Some(s) => Some(s.as_str()),
            None => None,
        }
    }

    /// Version of the device.
    pub fn device_version(&self) -> (r: &'a str)
        ensures
            r@ == self.spec_data().device_version@,
    {
        self.abrm.device_version.as_str()
    }

    /// Manufacturer specific information of the device.
    pub fn manufacturer_info(&self) -> (r: &'a str)
        ensures
            r@ == self.spec_data().manufacturer_info@,
    {
        self.abrm.manufacturer_info.as_str()
    }

    /// Serial number of the device.
    pub fn serial_number(&self) -> (r: &'a str)
        ensures
            r@ == self.spec_data().serial_number@,
    {
        self.abrm.serial_number.as_str()
    }

    /// The address of the manifest table.
    pub fn manifest_table_address(&self) -> (r: u64)
        ensures
            r == self.spec_data().manifest_table_address,
    {
        self.abrm.manifest_table_address
    }

    /// The address of the `SBRM`.
    pub fn sbrm_address(&self) -> (r: u64)
        ensures
            r == self.spec_data().sbrm_address,
    {
        self.abrm.sbrm_address
    }

    /// Timestamp increment of the device.
    pub fn timestamp_increment(&self) -> (r: u64)
        ensures
            r == self.spec_data().timestamp_increment,
    {
        self.abrm.timestamp_increment
    }

    /// Software interface version of the device, when it has one.
    pub fn device_software_interface_version(&self) -> (r: Option<&'a str>)
        ensures
            match self.spec_data().device_software_interface_version {
                Some(s) => r matches Some(t) && t@ == s@,
                None => r is None,
            },
    {
        match &self.abrm.device_software_interface_version {
            Some(s) => Some(s.as_str()),
            None => None,
        }
    }

    /// Maximum response time of the device, in milliseconds.
    pub fn maximum_device_response_time(&self) -> (r: u64)
        ensures
            r == self.spec_data().maximum_device_response_time,
    {
        self.abrm.maximum_device_response_time
    }

    /// The capability has the user defined name (bit 0).
    pub fn is_user_defined_name_supported(&self) -> (r: bool)
        ensures
            r == bit_of(self.spec_data().device_capability.0@, 0),
    {
        self.abrm.device_capability.is_user_defined_name_supported()
    }

    /// The capability has multi event (bit 12).
    pub fn is_multi_event_supported(&self) -> (r: bool)
        ensures
            r == bit_of(self.spec_data().device_capability.0@, 12),
    {
        self.abrm.device_capability.is_multi_event_supported()
    }

    /// The capability has stacked commands (bit 13).
    pub fn is_stacked_commands_supported(&self) -> (r: bool)
        ensures
            r == bit_of(self.spec_data().device_capability.0@, 13),
    {
        self.abrm.device_capability.is_stacked_commands_supported()
    }

    /// User defined name of the device, read from its register; `None` without reading when
    /// the capability lacks it.
    pub fn user_defined_name<H: MemoryAccess + ?Sized>(&self, handle: &mut H) -> (r: DeviceResult<
        Option<String>,
    >)
        ensures
            !bit_of(self.spec_data().device_capability.0@, 0) ==> r == Ok::<Option<String>, DeviceError>(None)
                && final(handle).mem_accesses() == old(handle).mem_accesses(),
            bit_of(self.spec_data().device_capability.0@, 0) ==> mem_read_logged(
                old(handle).mem_accesses(),
                final(handle).mem_accesses(),
                abrm::USER_DEFINED_NAME.0,
                64,
            ) && match op_answer(final(handle).mem_accesses().last()) {
                Err(e) => r == Err::<Option<String>, DeviceError>(e),
                Ok(b) => if valid_utf8(register_text(b)) {
                    r matches Ok(Some(s)) && s@ == decode_utf8(register_text(b))
                } else {
                    r matches Err(e) && e is InternalError
                },
            },
    {
        if !self.abrm.device_capability.is_user_defined_name_supported() {
            return Ok(None);
        }
        let mut buf: Vec<u8> = vec![0; 64];
        let ghost l0 = handle.mem_accesses();
        let res = handle.read_mem(abrm::USER_DEFINED_NAME.0, buf.as_mut_slice());
        assert(handle.mem_accesses().take(l0.len() as int) =~= l0);
        match res {
            Err(e) => Err(e),
            Ok(()) => {
                let s = parse_string(buf.as_slice())?;
                Ok(Some(s))
            },
        }
    }

    /// Latches the timestamp: writes 1 to the latch register.
    pub fn set_timestamp_latch_bit<H: MemoryAccess + ?Sized>(&self, handle: &mut H) -> (r:
        DeviceResult<()>)
        ensures
            final(handle).mem_accesses() == old(handle).mem_accesses().push(
                MemoryOp::Write {
                    address: abrm::TIMESTAMP_LATCH.0,
                    data: le32_bytes(1u32),
                    answer: r,
                },
            ),
    {
        let buf: Vec<u8> = vec![1, 0, 0, 0];
        assert(buf@ =~= le32_bytes(1u32));
        handle.write_mem(abrm::TIMESTAMP_LATCH.0, buf.as_slice())
    }

    /// Enables multi event, as [`multi_event_set`] states: the configuration is written back
    /// only when bit 1 is clear.
    pub fn enable_multi_event<H: MemoryAccess + ?Sized>(&self, handle: &mut H) -> (r:
        DeviceResult<()>)
        ensures
            multi_event_set(old(handle).mem_accesses(), final(handle).mem_accesses(), true, r),
    {
        set_multi_event(handle, true)
    }

    /// Disables multi event, as [`multi_event_set`] states: the configuration is written back
    /// only when bit 1 is set.
    pub fn disable_multi_event<H: MemoryAccess + ?Sized>(&self, handle: &mut H) -> (r:
        DeviceResult<()>)
        ensures
            multi_event_set(old(handle).mem_accesses(), final(handle).mem_accesses(), false, r),
    {
        set_multi_event(handle, false)
    }

    /// Whether multi event is enabled (bit 1 of the configuration register); `false` without
    /// reading when the capability lacks multi event.
    pub fn is_multi_event_enabled<H: MemoryAccess + ?Sized>(&self, handle: &mut H) -> (r:
        DeviceResult<bool>)
        ensures
            !bit_of(self.spec_data().device_capability.0@, 12) ==> r == Ok::<bool, DeviceError>(false)
                && final(handle).mem_accesses() == old(handle).mem_accesses(),
            bit_of(self.spec_data().device_capability.0@, 12) ==> mem_read_logged(
                old(handle).mem_accesses(),
                final(handle).mem_accesses(),
                abrm::DEVICE_CONFIGURATION.0,
                8,
            ) && match op_answer(final(handle).mem_accesses().last()) {
                Err(e) => r == Err::<bool, DeviceError>(e),
                Ok(c) => r == Ok::<bool, DeviceError>(bit_of(c, 1)),
            },
    {
        if !self.abrm.device_capability.is_multi_event_supported() {
            return Ok(false);
        }
        let mut buf: Vec<u8> = vec![0; 8];
        let ghost l0 = handle.mem_accesses();
        let res = handle.read_mem(abrm::DEVICE_CONFIGURATION.0, buf.as_mut_slice());
        assert(handle.mem_accesses().take(l0.len() as int) =~= l0);
        match res {
            Err(e) => Err(e),
            Ok(()) => Ok(is_bit_set(buf.as_slice(), 1)),
        }
    }
}

/// Reads the configuration register and writes it back with bit 1 set to `on`, unless it
/// already reads so.
fn set_multi_event<H: MemoryAccess + ?Sized>(handle: &mut H, on: bool) -> (r: DeviceResult<()>)
    ensures
        multi_event_set(old(handle).mem_accesses(), final(handle).mem_accesses(), on, r),
{
    let ghost l0 = handle.mem_accesses();
    let mut buf: Vec<u8> = vec![0; 8];
    let res = handle.read_mem(abrm::DEVICE_CONFIGURATION.0, buf.as_mut_slice());
    let ghost l1 = handle.mem_accesses();
    assert(l1.take(l0.len() as int) =~= l0);
    assert(l1[l0.len() as int] == l1.last());
    if let Err(e) = res {
        return Err(e);
    }
    if is_bit_set(buf.as_slice(), 1) == on {
        return Ok(());
    }
    assert(1u8 << 1u8 == 2u8) by (bit_vector);
    if on {
        set_bit(buf.as_mut_slice(), 1);
    } else {
        unset_bit(buf.as_mut_slice(), 1);
    }
    let r = handle.write_mem(abrm::DEVICE_CONFIGURATION.0, buf.as_slice());
    assert(l1 =~= l0.push(l1[l0.len() as int]));
    assert(handle.mem_accesses().take(l0.len() as int) =~= l0);
    r
}

/// Technology specific boot register map of an opened device.
pub struct Sbrm<'a> {
    sbrm: &'a SbrmStaticData,
}

impl<'a> Sbrm<'a> {
    /// The fixed values that the map answers with.
    pub closed spec fn spec_data(&self) -> &'a SbrmStaticData {
        self.sbrm
    }

    /// The map over `sbrm`.
    pub fn new(sbrm: &'a SbrmStaticData) -> (r: Self)
        ensures
            r.spec_data() == sbrm,
    {
        Sbrm { sbrm }
    }

    /// `USB3 Vision` version of the device.
    pub fn u3v_version(&self) -> (r: Version)
        ensures
            r == self.spec_data().u3v_version,
    {
        self.sbrm.u3v_version
    }

    /// Maximum length of a command transfer.
    pub fn maximum_command_transfer_length(&self) -> (r: u32)
        ensures
            r == self.spec_data().maximum_command_transfer_length,
    {
        self.sbrm.maximum_command_transfer_length
    }

    /// Maximum length of an acknowledge transfer.
    pub fn maximum_acknowledge_trasfer_length(&self) -> (r: u32)
        ensures
            r == self.spec_data().maximum_acknowledge_trasfer_length,
    {
        self.sbrm.maximum_acknowledge_trasfer_length
    }

    /// Number of stream channels.
    pub fn number_of_stream_channel(&self) -> (r: u32)
        ensures
            r == self.spec_data().number_of_stream_channel,
    {
        self.sbrm.number_of_stream_channel
    }

    /// Address of the `SIRM`, when it is available.
    pub fn sirm_address(&self) -> (r: Option<u64>)
        ensures
            r == self.spec_data().sirm_address,
    {
        self.sbrm.sirm_address
    }

    /// Length of the `SIRM`, when it is available.
    pub fn sirm_length(&self) -> (r: Option<u32>)
        ensures
            r == self.spec_data().sirm_length,
    {
        self.sbrm.sirm_length
    }

    /// Address of the `EIRM`, when it is available.
    pub fn eirm_address(&self) -> (r: Option<u64>)
        ensures
            r == self.spec_data().eirm_address,
    {
        self.sbrm.eirm_address
    }

    /// Length of the `EIRM`, when it is available.
    pub fn eirm_length(&self) -> (r: Option<u32>)
        ensures
            r == self.spec_data().eirm_length,
    {
        self.sbrm.eirm_length
    }

    /// Address of the `IIDC2` register map, when it is available.
    pub fn iidc2_address(&self) -> (r: Option<u64>)
        ensures
            r == self.spec_data().iidc2_address,
    {
        self.sbrm.iidc2_address
    }

    /// Speed of the bus the device is connected to.
    pub fn current_speed(&self) -> (r: BusSpeed)
        ensures
            r == self.spec_data().current_speed,
    {
        self.sbrm.current_speed
    }

    /// The capability has the `SIRM` (bit 0).
    pub fn is_sirm_available(&self) -> (r: bool)
        ensures
            r == bit_of(self.spec_data().u3v_capability.0@, 0),
    {
        self.sbrm.u3v_capability.is_sirm_available()
    }

    /// The capability has the `EIRM` (bit 1).
    pub fn is_eirm_available(&self) -> (r: bool)
        ensures
            r == bit_of(self.spec_data().u3v_capability.0@, 1),
    {
        self.sbrm.u3v_capability.is_eirm_available()
    }

    /// The capability has the `IIDC2` register map (bit 2).
    pub fn is_iidc2_available(&self) -> (r: bool)
        ensures
            r == bit_of(self.spec_data().u3v_capability.0@, 2),
    {
        self.sbrm.u3v_capability.is_iidc2_available()
    }
}

} // verus!
