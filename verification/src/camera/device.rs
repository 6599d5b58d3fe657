//! The low level view of a `USB3 Vision` device: its errors, the bit fields of its byte
//! registers and the register data that stays fixed while the device is open.

use vstd::prelude::*;
use vstd::utf8::{decode_utf8, valid_utf8};

use crate::bytes::{le16, le32, le64, str_from_utf8};
use crate::common::Version;
use crate::control::DeviceIoError;
use crate::u3v::{Error as U3vError, UsbError};
use crate::u3v::register_map::{abrm, sbrm};

use super::registers::{parse_u16, parse_u32, parse_u64, register_text};
use super::u3v_register_map::{bus_speed_of, BusSpeed};

verus! {

/// The error type for manipulation of devices.
#[derive(Clone, Copy, Debug, PartialEq, Eq)]
pub enum DeviceError {
    /// The device is busy, may be opened by another application.
    Busy,
    /// The device is disconnected from the host.
    Disconnected,
    /// IO error.
    Io(DeviceIoError),
    /// The device is not opened.
    NotOpened,
    /// Device internal error.
    InternalError(&'static str),
    /// Buffer is too small to receive data.
    BufferTooSmall,
    /// Try to write invalid data to the device.
    InvalidData(&'static str),
    /// Timeout has been occurred.
    Timeout,
}

/// A specialized `Result` type for device manipulation.
pub type DeviceResult<T> = Result<T, DeviceError>;

/// The device error that a failure of the `USB3 Vision` layer stands for: a busy device stays
/// busy, a vanished one is disconnected, a timeout stays a timeout and any other failure is an
/// IO error that carries the failure itself.
pub open spec fn device_error_of(err: U3vError) -> DeviceError {
    match err {
        U3vError::Usb(UsbError::Busy) => DeviceError::Busy,
        U3vError::Usb(UsbError::Disconnected) | U3vError::Usb(UsbError::NotFound) => {
            DeviceError::Disconnected
        },
        U3vError::Usb(UsbError::Timeout) => DeviceError::Timeout,
        _ => DeviceError::Io(DeviceIoError::Transport(err)),
    }
}

impl DeviceError {
    /// Converts a failure of the `USB3 Vision` layer; a device that breaks the specification is
    /// a broken device, which no caller can handle.
    pub fn from(err: U3vError) -> (r: DeviceError)
        requires
            !(err is InvalidDevice),
        ensures
            r == device_error_of(err),
    {
        match err {
            U3vError::Usb(UsbError::Busy) => DeviceError::Busy,
            U3vError::Usb(UsbError::Disconnected) | U3vError::Usb(UsbError::NotFound) => {
                DeviceError::Disconnected
            },
            U3vError::Usb(UsbError::Timeout) => DeviceError::Timeout,
            _ => DeviceError::Io(DeviceIoError::Transport(err)),
        }
    }
}

/// One access to the memory of an opened device, with what the device answered.
pub enum MemoryOp {
    /// A read of `len` bytes at `address`; the answer holds the bytes read.
    Read { address: u64, len: nat, answer: Result<Seq<u8>, DeviceError> },
    /// A write of `data` at `address`.
    Write { address: u64, data: Seq<u8>, answer: Result<(), DeviceError> },
}

/// The memory accesses made through a device handle, in order.
pub type MemoryLog = Seq<MemoryOp>;

/// The memory operations of an opened device. Every read and write is one access of
/// [`MemoryAccess::mem_accesses`], with the device's answer.
pub trait MemoryAccess {
    /// The reads and writes made through the handle so far, in order.
    spec fn mem_accesses(&self) -> MemoryLog;

    /// Reads `buf.len()` bytes at `address` into `buf`; the slice keeps its length.
    fn read_mem(&mut self, address: u64, buf: &mut [u8]) -> (r: DeviceResult<()>)
        ensures
            final(buf)@.len() == old(buf)@.len(),
            final(self).mem_accesses() == old(self).mem_accesses().push(
                MemoryOp::Read {
                    address,
                    len: old(buf)@.len(),
                    answer: match r {
                        Ok(_) => Ok(final(buf)@),
                        Err(e) => Err(e),
                    },
                },
            ),
    ;

    /// Writes `data` at `address`.
    fn write_mem(&mut self, address: u64, data: &[u8]) -> (r: DeviceResult<()>)
        ensures
            final(self).mem_accesses() == old(self).mem_accesses().push(
                MemoryOp::Write { address, data: data@, answer: r },
            ),
    ;
}

/// Bit `offset` of `bytes`, counted from the least significant bit of the first byte.
pub open spec fn bit_of(bytes: Seq<u8>, offset: int) -> bool {
    (bytes[offset / 8] >> ((offset % 8) as u8)) & 1 == 1
}

/// Reads bit `offset` of `bytes`.
pub fn is_bit_set(bytes: &[u8], offset: usize) -> (r: bool)
    requires
        offset < bytes@.len() * 8,
    ensures
        r == bit_of(bytes@, offset as int),
{
    let idx = offset / 8;
    let rem = offset % 8;
    (bytes[idx] >> (rem as u8)) & 1 == 1
}

/// Sets bit `offset` of `bytes`.
pub fn set_bit(bytes: &mut [u8], offset: usize)
    requires
        offset < old(bytes)@.len() * 8,
    ensures
        final(bytes)@ == old(bytes)@.update(
            (offset / 8) as int,
            old(bytes)@[(offset / 8) as int] | (1u8 << ((offset % 8) as u8)),
        ),
{
    let idx = offset / 8;
    let rem = offset % 8;
    let b = bytes[idx] | (1u8 << (rem as u8));
    bytes[idx] = b;
}

/// Clears bit `offset` of `bytes`.
pub fn unset_bit(bytes: &mut [u8], offset: usize)
    requires
        offset < old(bytes)@.len() * 8,
    ensures
        final(bytes)@ == old(bytes)@.update(
            (offset / 8) as int,
            old(bytes)@[(offset / 8) as int] & !(1u8 << ((offset % 8) as u8)),
        ),
{
    let idx = offset / 8;
    let rem = offset % 8;
    let b = bytes[idx] & !(1u8 << (rem as u8));
    bytes[idx] = b;
}

/// Setting a bit turns it on and clearing it turns it off; neither touches another bit.
pub proof fn lemma_bit_update(bytes: Seq<u8>, offset: int, other: int)
    requires
        0 <= offset < bytes.len() * 8,
        0 <= other < bytes.len() * 8,
        other != offset,
    ensures
        bit_of(bytes.update(offset / 8, bytes[offset / 8] | (1u8 << ((offset % 8) as u8))), offset),
        !bit_of(bytes.update(offset / 8, bytes[offset / 8] & !(1u8 << ((offset % 8) as u8))), offset),
        bit_of(bytes.update(offset / 8, bytes[offset / 8] | (1u8 << ((offset % 8) as u8))), other)
            == bit_of(bytes, other),
        bit_of(bytes.update(offset / 8, bytes[offset / 8] & !(1u8 << ((offset % 8) as u8))), other)
            == bit_of(bytes, other),
{
    let b = bytes[offset / 8];
    let r = (offset % 8) as u8;
    assert(r < 8);
    assert((b | (1u8 << r)) >> r & 1 == 1) by (bit_vector)
        requires
            r < 8,
    ;
    assert((b & !(1u8 << r)) >> r & 1 != 1) by (bit_vector)
        requires
            r < 8,
    ;
    if other / 8 == offset / 8 {
        let q = (other % 8) as u8;
        assert(q != r);
        assert(((b | (1u8 << r)) >> q & 1 == 1) == (b >> q & 1 == 1)) by (bit_vector)
            requires
                r < 8,
                q < 8,
                q != r,
        ;
        assert(((b & !(1u8 << r)) >> q & 1 == 1) == (b >> q & 1 == 1)) by (bit_vector)
            requires
                r < 8,
                q < 8,
                q != r,
        ;
    }
}

/// Configuration register of the device, as its eight bytes.
#[derive(Clone, Copy, Debug, PartialEq, Eq)]
pub struct DeviceConfiguration(pub [u8; 8]);

impl DeviceConfiguration {
    /// Bit 1: multi event is enabled.
    pub fn is_multi_event_enabled(&self) -> (r: bool)
        ensures
            r == bit_of(self.0@, 1),
    {
        is_bit_set(&self.0, 1)
    }

    /// Sets bit 1.
    pub fn enable_multi_event(&mut self)
        ensures
            final(self).0@ == old(self).0@.update(0, old(self).0@[0] | 2),
    {
        assert(1u8 << 1u8 == 2u8) by (bit_vector);
        set_bit(&mut self.0, 1);
    }

    /// Clears bit 1.
    pub fn disable_multi_event(&mut self)
        ensures
            final(self).0@ == old(self).0@.update(0, old(self).0@[0] & !2u8),
    {
        assert(1u8 << 1u8 == 2u8) by (bit_vector);
        unset_bit(&mut self.0, 1);
    }
}

/// Enabling multi event makes it read as enabled and disabling it makes it read as disabled;
/// neither changes another bit of the configuration.
pub proof fn lemma_multi_event_toggle(config: Seq<u8>, other: int)
    requires
        config.len() == 8,
        0 <= other < 64,
        other != 1,
    ensures
        bit_of(config.update(0, config[0] | 2), 1),
        !bit_of(config.update(0, config[0] & !2u8), 1),
        bit_of(config.update(0, config[0] | 2), other) == bit_of(config, other),
        bit_of(config.update(0, config[0] & !2u8), other) == bit_of(config, other),
{
    assert(1u8 << 1u8 == 2u8) by (bit_vector);
    assert((1int % 8) as u8 == 1u8);
    lemma_bit_update(config, 1, other);
}

/// Capability register of the device, as its eight bytes.
#[derive(Clone, Copy, Debug, PartialEq, Eq)]
pub struct DeviceCapability(pub [u8; 8]);

impl DeviceCapability {
    /// Bit 0: user defined name is supported.
    pub fn is_user_defined_name_supported(&self) -> (r: bool)
        ensures
            r == bit_of(self.0@, 0),
    {
        is_bit_set(&self.0, 0)
    }

    /// Bit 8: family name is supported.
    pub fn is_family_name_supported(&self) -> (r: bool)
        ensures
            r == bit_of(self.0@, 8),
    {
        is_bit_set(&self.0, 8)
    }

    /// Bit 12: multiple events in one event packet are supported.
    pub fn is_multi_event_supported(&self) -> (r: bool)
        ensures
            r == bit_of(self.0@, 12),
    {
        is_bit_set(&self.0, 12)
    }

    /// Bit 13: stacked commands are supported.
    pub fn is_stacked_commands_supported(&self) -> (r: bool)
        ensures
            r == bit_of(self.0@, 13),
    {
        is_bit_set(&self.0, 13)
    }

    /// Bit 14: the software interface version register is supported.
    pub fn is_device_software_interface_version_supported(&self) -> (r: bool)
        ensures
            r == bit_of(self.0@, 14),
    {
        is_bit_set(&self.0, 14)
    }
}

/// U3V capability register, as its eight bytes.
#[derive(Clone, Copy, Debug, PartialEq, Eq)]
pub struct U3VCapablitiy(pub [u8; 8]);

impl U3VCapablitiy {
    /// Bit 0: `SIRM` is available.
    pub fn is_sirm_available(&self) -> (r: bool)
        ensures
            r == bit_of(self.0@, 0),
    {
        is_bit_set(&self.0, 0)
    }

    /// Bit 1: `EIRM` is available.
    pub fn is_eirm_available(&self) -> (r: bool)
        ensures
            r == bit_of(self.0@, 1),
    {
        is_bit_set(&self.0, 1)
    }

    /// Bit 2: `IIDC2` is available.
    pub fn is_iidc2_available(&self) -> (r: bool)
        ensures
            r == bit_of(self.0@, 2),
    {
        is_bit_set(&self.0, 2)
    }
}

/// Copies eight bytes into an array.
fn to_array8(bytes: &[u8]) -> (r: [u8; 8])
    requires
        bytes@.len() == 8,
    ensures
        r@ == bytes@,
{
    let r = [bytes[0], bytes[1], bytes[2], bytes[3], bytes[4], bytes[5], bytes[6], bytes[7]];
    assert(r@ =~= bytes@);
    r
}

/// The version that a version register holds: minor in the first two bytes, major in the
/// last two, both little endian.
pub open spec fn version_from_bytes(bytes: Seq<u8>) -> Version {
    Version {
        major: le16(bytes.subrange(2, 4)) as u64,
        minor: le16(bytes.subrange(0, 2)) as u64,
        patch: 0,
    }
}

/// Parses a version register of four bytes.
pub fn parse_version(bytes: &[u8]) -> (r: Version)
    requires
        bytes@.len() == 4,
    ensures
        r == version_from_bytes(bytes@),
{
    let minor = parse_u16(vstd::slice::slice_subrange(bytes, 0, 2));
    let major = parse_u16(vstd::slice::slice_subrange(bytes, 2, 4));
    Version::new(major as u64, minor as u64, 0)
}

/// Parses a string register: the bytes up to the first NUL, which must be valid UTF-8, else
/// `InternalError`.
pub fn parse_string(bytes: &[u8]) -> (r: DeviceResult<String>)
    ensures
        r is Ok <==> valid_utf8(register_text(bytes@)),
        r matches Ok(s) ==> s@ == decode_utf8(register_text(bytes@)),
        r matches Err(e) ==> e is InternalError,
{
    let len = match crate::bytes::first_nul(bytes) {
        Some(len) => len,
        None => bytes.len(),
    };
    match str_from_utf8(vstd::slice::slice_subrange(bytes, 0, len)) {
        Some(s) => Ok(s.to_owned()),
        None => Err(DeviceError::InternalError("device's string register value is broken")),
    }
}

/// `op` is a read of `len` bytes at `address`, whose bytes, when it succeeded, are `len` many.
pub open spec fn op_read(op: MemoryOp, address: u64, len: nat) -> bool {
    op matches MemoryOp::Read { address: a, len: l, answer } && a == address && l == len && (
    answer matches Ok(d) ==> d.len() == len)
}

/// What the device answered to `op`, a read.
pub open spec fn op_answer(op: MemoryOp) -> Result<Seq<u8>, DeviceError> {
    match op {
        MemoryOp::Read { answer, .. } => answer,
        _ => Err(DeviceError::Timeout),
    }
}

/// The kind of a register of fixed data: raw bytes, a string, or a current speed.
pub open spec fn register_valid(kind: u8, b: Seq<u8>) -> bool {
    &&& kind == 1 ==> valid_utf8(register_text(b))
    &&& kind == 2 ==> b.len() == 4 && bus_speed_of(le32(b)) is Some
}

/// The access at `start + j` of `log` read register `regs[j]` (address, length, kind) and got
/// bytes of its kind.
pub open spec fn read_ok(log: MemoryLog, start: int, regs: Seq<(u64, nat, u8)>, j: int) -> bool {
    &&& 0 <= start + j < log.len()
    &&& op_read(log[start + j], regs[j].0, regs[j].1)
    &&& op_answer(log[start + j]) matches Ok(b) && register_valid(regs[j].2, b)
}

/// The bytes that the access at `start + j` of `log` read.
pub open spec fn register_bytes(log: MemoryLog, start: int, j: int) -> Seq<u8> {
    op_answer(log[start + j])->Ok_0
}

/// From `start` on, `log` holds exactly the reads of `regs`, each with bytes of its kind.
pub open spec fn registers_read(log: MemoryLog, start: int, regs: Seq<(u64, nat, u8)>) -> bool {
    &&& log.len() == start + regs.len()
    &&& forall|j: int| 0 <= j < regs.len() ==> #[trigger] read_ok(log, start, regs, j)
}

/// From `start` on, `log` holds the reads of a prefix of `regs`, of which the last failed with
/// `e`, or read malformed bytes (a string that is not UTF-8 or an unknown speed) and `e` is
/// `InternalError`.
pub open spec fn registers_failed(
    log: MemoryLog,
    start: int,
    regs: Seq<(u64, nat, u8)>,
    e: DeviceError,
) -> bool {
    let j = log.len() - start - 1;
    &&& 0 <= j < regs.len()
    &&& forall|k: int| 0 <= k < j ==> #[trigger] read_ok(log, start, regs, k)
    &&& op_read(log[start + j], regs[j].0, regs[j].1)
    &&& match op_answer(log[start + j]) {
        Err(x) => e == x,
        Ok(b) => !register_valid(regs[j].2, b) && e is InternalError,
    }
}

/// The registers as specification values.
pub open spec fn reg_specs(regs: Seq<(u64, u16, u8)>) -> Seq<(u64, nat, u8)> {
    Seq::new(regs.len(), |j: int| (regs[j].0, regs[j].1 as nat, regs[j].2))
}

/// The text of a string register of bytes `b`.
pub open spec fn register_string(b: Seq<u8>) -> Seq<char> {
    decode_utf8(register_text(b))
}

/// Reads `len` bytes at `addr`: one read, whose bytes or error are the result.
fn read_register<H: MemoryAccess + ?Sized>(handle: &mut H, addr: u64, len: u16) -> (r:
    DeviceResult<Vec<u8>>)
    ensures
        final(handle).mem_accesses() == old(handle).mem_accesses().push(
            MemoryOp::Read {
                address: addr,
                len: len as nat,
                answer: op_answer(final(handle).mem_accesses().last()),
            },
        ),
        op_answer(final(handle).mem_accesses().last()) matches Ok(d) ==> d.len() == len,
        match op_answer(final(handle).mem_accesses().last()) {
            Ok(d) => r matches Ok(v) && v@ == d,
            Err(e) => r == Err::<Vec<u8>, DeviceError>(e),
        },
{
    let mut buf: Vec<u8> = vec![0; len as usize];
    match handle.read_mem(addr, buf.as_mut_slice()) {
        Ok(()) => Ok(buf),
        Err(e) => Err(e),
    }
}

/// Reads the registers of `regs` (address, length, kind) in order, checking that each string
/// is UTF-8 and each speed a known one; the first failing read gives its error, and a
/// malformed register `InternalError`.
fn read_registers<H: MemoryAccess + ?Sized>(handle: &mut H, regs: &Vec<(u64, u16, u8)>) -> (r:
    DeviceResult<Vec<Vec<u8>>>)
    ensures
        final(handle).mem_accesses().take(old(handle).mem_accesses().len() as int) == old(
            handle,
        ).mem_accesses(),
        r matches Ok(v) ==> {
            &&& registers_read(
                final(handle).mem_accesses(),
                old(handle).mem_accesses().len() as int,
                reg_specs(regs@),
            )
            &&& v@.len() == regs@.len()
            &&& forall|j: int|
                0 <= j < v@.len() ==> (#[trigger] v@[j])@ == register_bytes(
                    final(handle).mem_accesses(),
                    old(handle).mem_accesses().len() as int,
                    j,
                )
        },
        r matches Err(e) ==> registers_failed(
            final(handle).mem_accesses(),
            old(handle).mem_accesses().len() as int,
            reg_specs(regs@),
            e,
        ),
{
    let ghost l0 = handle.mem_accesses();
    let ghost n = l0.len() as int;
    let ghost specs = reg_specs(regs@);
    let mut out: Vec<Vec<u8>> = Vec::new();
    let mut i: usize = 0;
    while i < regs.len()
        invariant
            i <= regs@.len(),
            specs == reg_specs(regs@),
            n == l0.len(),
            l0 == old(handle).mem_accesses(),
            handle.mem_accesses().len() == n + i,
            handle.mem_accesses().take(n) == l0,
            forall|k: int| 0 <= k < i ==> #[trigger] read_ok(handle.mem_accesses(), n, specs, k),
            out@.len() == i,
            forall|k: int|
                0 <= k < i ==> (#[trigger] out@[k])@ == register_bytes(handle.mem_accesses(), n, k),
        decreases regs@.len() - i,
    {
        let (addr, len, kind) = regs[i];
        let ghost prev = handle.mem_accesses();
        let res = read_register(handle, addr, len);
        let ghost cur = handle.mem_accesses();
        proof {
            assert(cur.len() == prev.len() + 1);
            assert(prev.len() == n + i);
            assert(cur.take(n) =~= prev.take(n));
            assert forall|k: int| 0 <= k < i implies #[trigger] read_ok(cur, n, specs, k) by {
                assert(read_ok(prev, n, specs, k));
                assert(cur[n + k] == prev[n + k]);
            }
            assert forall|k: int| 0 <= k < i implies (#[trigger] out@[k])@ == register_bytes(
                cur,
                n,
                k,
            ) by {
                assert(cur[n + k] == prev[n + k]);
            }
            assert(cur[n + i] == cur.last());
        }
        let buf = match res {
            Ok(b) => b,
            Err(e) => return Err(e),
        };
        if kind == 1 {
            if parse_string(buf.as_slice()).is_err() {
                return Err(DeviceError::InternalError("device's string register value is broken"));
            }
        }
        if kind == 2 {
            if buf.len() != 4 {
                return Err(DeviceError::InternalError("invalid bus speed defined"));
            }
            if bus_speed_from(buf.as_slice()).is_none() {
                return Err(DeviceError::InternalError("invalid bus speed defined"));
            }
        }
        let ghost before = out@;
        out.push(buf);
        proof {
            assert(read_ok(cur, n, specs, i as int));
            assert forall|k: int|
                0 <= k < i + 1 implies (#[trigger] out@[k])@ == register_bytes(cur, n, k) by {
                if k < i {
                    assert(out@[k] == before[k]);
                }
            }
        }
        i = i + 1;
    }
    Ok(out)
}

/// The `ABRM` registers read after the capability, in order (address, length, kind); the
/// family name and the software interface version only when the capability has them.
pub open spec fn abrm_regs(family: bool, software_version: bool) -> Seq<(u64, nat, u8)> {
    seq![
        (abrm::GENCP_VERSION.0, 4nat, 0u8),
        (abrm::MANUFACTURER_NAME.0, 64nat, 1u8),
        (abrm::MODEL_NAME.0, 64nat, 1u8),
    ] + (if family {
        seq![(abrm::FAMILY_NAME.0, 64nat, 1u8)]
    } else {
        Seq::empty()
    }) + seq![
        (abrm::DEVICE_VERSION.0, 64nat, 1u8),
        (abrm::MANUFACTURER_INFO.0, 64nat, 1u8),
        (abrm::SERIAL_NUMBER.0, 64nat, 1u8),
        (abrm::MAXIMUM_DEVICE_RESPONSE_TIME.0, 4nat, 0u8),
        (abrm::MANIFEST_TABLE_ADDRESS.0, 8nat, 0u8),
        (abrm::SBRM_ADDRESS.0, 8nat, 0u8),
        (abrm::TIMESTAMP_INCREMENT.0, 8nat, 0u8),
    ] + (if software_version {
        seq![(abrm::DEVICE_SOFTWARE_INTERFACE_VERSION.0, 64nat, 1u8)]
    } else {
        Seq::empty()
    })
}

/// The fields of `d` are those the `ABRM` registers read at `s` of `log` hold, the capability
/// being `cap`.
pub open spec fn abrm_fields(d: AbrmStaticData, cap: Seq<u8>, log: MemoryLog, s: int) -> bool {
    let k = if bit_of(cap, 8) {
        1int
    } else {
        0int
    };
    &&& d.device_capability.0@ == cap
    &&& d.gencp_version == version_from_bytes(register_bytes(log, s, 0))
    &&& d.manufacturer_name@ == register_string(register_bytes(log, s, 1))
    &&& d.model_name@ == register_string(register_bytes(log, s, 2))
    &&& if bit_of(cap, 8) {
        d.family_name matches Some(f) && f@ == register_string(register_bytes(log, s, 3))
    } else {
        d.family_name is None
    }
    &&& d.device_version@ == register_string(register_bytes(log, s, 3 + k))
    &&& d.manufacturer_info@ == register_string(register_bytes(log, s, 4 + k))
    &&& d.serial_number@ == register_string(register_bytes(log, s, 5 + k))
    &&& d.maximum_device_response_time == le32(register_bytes(log, s, 6 + k)) as u64
    &&& d.manifest_table_address == le64(register_bytes(log, s, 7 + k))
    &&& d.sbrm_address == le64(register_bytes(log, s, 8 + k))
    &&& d.timestamp_increment == le64(register_bytes(log, s, 9 + k))
    &&& if bit_of(cap, 14) {
        d.device_software_interface_version matches Some(v) && v@ == register_string(
            register_bytes(log, s, 10 + k),
        )
    } else {
        d.device_software_interface_version is None
    }
}

/// What reading the fixed `ABRM` registers does to the accesses of `log` from `n` on and
/// gives: the capability is read first; then the registers of [`abrm_regs`] are read in
/// order, and the fields are what they hold ([`abrm_fields`]); the first read that fails
/// gives its error, a malformed string `InternalError`.
pub open spec fn abrm_static_read(log: MemoryLog, n: int, r: DeviceResult<AbrmStaticData>) -> bool {
    &&& 0 <= n < log.len()
    &&& op_read(log[n], abrm::DEVICE_CAPABILITY.0, 8)
    &&& match op_answer(log[n]) {
        Err(e) => log.len() == n + 1 && r == Err::<AbrmStaticData, DeviceError>(e),
        Ok(cap) => {
            let regs = abrm_regs(bit_of(cap, 8), bit_of(cap, 14));
            match r {
                Ok(d) => registers_read(log, n + 1, regs) && abrm_fields(d, cap, log, n + 1),
                Err(e) => registers_failed(log, n + 1, regs, e),
            }
        },
    }
}

/// The entries of [`abrm_regs`] by index.
proof fn lemma_abrm_regs(family: bool, software_version: bool)
    ensures
        ({
            let s = abrm_regs(family, software_version);
            let k = if family {
                1int
            } else {
                0int
            };
            &&& s.len() == 10 + k + if software_version {
                1int
            } else {
                0int
            }
            &&& s[0] == (abrm::GENCP_VERSION.0, 4nat, 0u8)
            &&& s[1] == (abrm::MANUFACTURER_NAME.0, 64nat, 1u8)
            &&& s[2] == (abrm::MODEL_NAME.0, 64nat, 1u8)
            &&& family ==> s[3] == (abrm::FAMILY_NAME.0, 64nat, 1u8)
            &&& s[3 + k] == (abrm::DEVICE_VERSION.0, 64nat, 1u8)
            &&& s[4 + k] == (abrm::MANUFACTURER_INFO.0, 64nat, 1u8)
            &&& s[5 + k] == (abrm::SERIAL_NUMBER.0, 64nat, 1u8)
            &&& s[6 + k] == (abrm::MAXIMUM_DEVICE_RESPONSE_TIME.0, 4nat, 0u8)
            &&& s[7 + k] == (abrm::MANIFEST_TABLE_ADDRESS.0, 8nat, 0u8)
            &&& s[8 + k] == (abrm::SBRM_ADDRESS.0, 8nat, 0u8)
            &&& s[9 + k] == (abrm::TIMESTAMP_INCREMENT.0, 8nat, 0u8)
            &&& software_version ==> s[10 + k] == (
                abrm::DEVICE_SOFTWARE_INTERFACE_VERSION.0,
                64nat,
                1u8,
            )
        }),
{
    let head = seq![
        (abrm::GENCP_VERSION.0, 4nat, 0u8),
        (abrm::MANUFACTURER_NAME.0, 64nat, 1u8),
        (abrm::MODEL_NAME.0, 64nat, 1u8),
    ];
    let fam: Seq<(u64, nat, u8)> = if family {
        seq![(abrm::FAMILY_NAME.0, 64nat, 1u8)]
    } else {
        Seq::empty()
    };
    let mid = seq![
        (abrm::DEVICE_VERSION.0, 64nat, 1u8),
        (abrm::MANUFACTURER_INFO.0, 64nat, 1u8),
        (abrm::SERIAL_NUMBER.0, 64nat, 1u8),
        (abrm::MAXIMUM_DEVICE_RESPONSE_TIME.0, 4nat, 0u8),
        (abrm::MANIFEST_TABLE_ADDRESS.0, 8nat, 0u8),
        (abrm::SBRM_ADDRESS.0, 8nat, 0u8),
        (abrm::TIMESTAMP_INCREMENT.0, 8nat, 0u8),
    ];
    let tail: Seq<(u64, nat, u8)> = if software_version {
        seq![(abrm::DEVICE_SOFTWARE_INTERFACE_VERSION.0, 64nat, 1u8)]
    } else {
        Seq::empty()
    };
    let s = abrm_regs(family, software_version);
    assert(s == head + fam + mid + tail);
    let k = fam.len() as int;
    assert(k == if family {
        1int
    } else {
        0int
    });
    assert(head.len() == 3);
    assert(mid.len() == 7);
    assert(s.len() == 10 + k + tail.len());
    assert(s[0] == head[0]);
    assert(s[1] == head[1]);
    assert(s[2] == head[2]);
    if family {
        assert(s[3] == fam[0]);
    }
    assert(s[3 + k] == mid[0]);
    assert(s[4 + k] == mid[1]);
    assert(s[5 + k] == mid[2]);
    assert(s[6 + k] == mid[3]);
    assert(s[7 + k] == mid[4]);
    assert(s[8 + k] == mid[5]);
    assert(s[9 + k] == mid[6]);
    if software_version {
        assert(s[10 + k] == tail[0]);
    }
}

/// The entries of [`sbrm_regs`] by index.
proof fn lemma_sbrm_regs(addr: u64, sirm: bool, eirm: bool, iidc2: bool)
    ensures
        ({
            let s = sbrm_regs(addr, sirm, eirm, iidc2);
            let a = if sirm {
                2int
            } else {
                0int
            };
            let b = if eirm {
                2int
            } else {
                0int
            };
            let c = if iidc2 {
                1int
            } else {
                0int
            };
            &&& s.len() == 4 + a + b + c
            &&& s[0].1 == 4 && s[0].2 == 0 && s[1].1 == 4 && s[1].2 == 0
            &&& s[2].1 == 4 && s[2].2 == 0
            &&& sirm ==> s[3].1 == 8 && s[3].2 == 0 && s[4].1 == 4 && s[4].2 == 0
            &&& eirm ==> s[3 + a].1 == 8 && s[3 + a].2 == 0 && s[4 + a].1 == 4 && s[4 + a].2 == 0
            &&& iidc2 ==> s[3 + a + b].1 == 8 && s[3 + a + b].2 == 0
            &&& s[3 + a + b + c].1 == 4 && s[3 + a + b + c].2 == 2
        }),
{
}

/// The list of [`abrm_regs`].
fn abrm_register_list(family: bool, software_version: bool) -> (r: Vec<(u64, u16, u8)>)
    ensures
        reg_specs(r@) == abrm_regs(family, software_version),
{
    let mut v: Vec<(u64, u16, u8)> = Vec::new();
    v.push((abrm::GENCP_VERSION.0, 4, 0));
    v.push((abrm::MANUFACTURER_NAME.0, 64, 1));
    v.push((abrm::MODEL_NAME.0, 64, 1));
    if family {
        v.push((abrm::FAMILY_NAME.0, 64, 1));
    }
    v.push((abrm::DEVICE_VERSION.0, 64, 1));
    v.push((abrm::MANUFACTURER_INFO.0, 64, 1));
    v.push((abrm::SERIAL_NUMBER.0, 64, 1));
    v.push((abrm::MAXIMUM_DEVICE_RESPONSE_TIME.0, 4, 0));
    v.push((abrm::MANIFEST_TABLE_ADDRESS.0, 8, 0));
    v.push((abrm::SBRM_ADDRESS.0, 8, 0));
    v.push((abrm::TIMESTAMP_INCREMENT.0, 8, 0));
    if software_version {
        v.push((abrm::DEVICE_SOFTWARE_INTERFACE_VERSION.0, 64, 1));
    }
    assert(reg_specs(v@) =~= abrm_regs(family, software_version));
    v
}

/// The text of a string register that was checked to be UTF-8.
fn checked_string(bytes: &Vec<u8>) -> (r: String)
    requires
        valid_utf8(register_text(bytes@)),
    ensures
        r@ == register_string(bytes@),
{
    match parse_string(bytes.as_slice()) {
        Ok(s) => s,
        Err(_) => String::new(),
    }
}

/// The register values of the `ABRM` that stay fixed while the device is open. Durations are
/// in milliseconds.
pub struct AbrmStaticData {
    pub gencp_version: Version,
    pub manufacturer_name: String,
    pub model_name: String,
    pub family_name: Option<String>,
    pub device_version: String,
    pub manufacturer_info: String,
    pub serial_number: String,
    pub device_capability: DeviceCapability,
    pub maximum_device_response_time: u64,
    pub manifest_table_address: u64,
    pub sbrm_address: u64,
    pub timestamp_increment: u64,
    pub device_software_interface_version: Option<String>,
}

impl AbrmStaticData {
    /// Reads the fixed registers of the `ABRM`, as [`abrm_static_read`] states: the
    /// capability first, then the registers of [`abrm_regs`]; the family name and the software
    /// interface version are read only when the capability has them.
    pub fn new<H: MemoryAccess + ?Sized>(handle: &mut H) -> (r: DeviceResult<Self>)
        ensures
            final(handle).mem_accesses().take(old(handle).mem_accesses().len() as int) == old(
                handle,
            ).mem_accesses(),
            abrm_static_read(
                final(handle).mem_accesses(),
                old(handle).mem_accesses().len() as int,
                r,
            ),
    {
        let ghost l0 = handle.mem_accesses();
        let ghost n = l0.len() as int;
        let cap_bytes = match read_register(handle, abrm::DEVICE_CAPABILITY.0, 8) {
            Ok(b) => b,
            Err(e) => {
                assert(handle.mem_accesses().take(n) =~= l0);
                return Err(e);
            },
        };
        let ghost l1 = handle.mem_accesses();
        assert(l1.take(n) =~= l0);
        let device_capability = DeviceCapability(to_array8(cap_bytes.as_slice()));
        let family = device_capability.is_family_name_supported();
        let software_version = device_capability.is_device_software_interface_version_supported();
        let regs = abrm_register_list(family, software_version);
        let ghost specs = abrm_regs(family, software_version);
        let res = read_registers(handle, &regs);
        let ghost f = handle.mem_accesses();
        proof {
            assert(f.take(n) =~= l0) by {
                assert(f.take(n + 1) == l1);
                assert(f.take(n) =~= f.take(n + 1).take(n));
            }
            assert(f[n] == l1[n]) by {
                assert(f.take(n + 1) == l1);
                assert(f.take(n + 1)[n] == f[n]);
            }
        }
        let vals = match res {
            Ok(v) => v,
            Err(e) => return Err(e),
        };
        proof {
            lemma_abrm_regs(family, software_version);
            let s = n + 1;
            assert forall|j: int| 0 <= j < specs.len() implies vals@[j]@.len() == specs[j].1
                && register_valid(specs[j].2, vals@[j]@) by {
                assert(read_ok(f, s, specs, j));
                assert(vals@[j]@ == register_bytes(f, s, j));
            }
        }
        let k: usize = if family {
            1
        } else {
            0
        };
        let gencp_version = parse_version(vals[0].as_slice());
        let manufacturer_name = checked_string(&vals[1]);
        let model_name = checked_string(&vals[2]);
        let family_name = if family {
            Some(checked_string(&vals[3]))
        } else {
            None
        };
        let device_version = checked_string(&vals[3 + k]);
        let manufacturer_info = checked_string(&vals[4 + k]);
        let serial_number = checked_string(&vals[5 + k]);
        let maximum_device_response_time = parse_u32(vals[6 + k].as_slice()) as u64;
        let manifest_table_address = parse_u64(vals[7 + k].as_slice());
        let sbrm_address = parse_u64(vals[8 + k].as_slice());
        let timestamp_increment = parse_u64(vals[9 + k].as_slice());
        let device_software_interface_version = if software_version {
            Some(checked_string(&vals[10 + k]))
        } else {
            None
        };
        Ok(AbrmStaticData {
            gencp_version,
            manufacturer_name,
            model_name,
            family_name,
            device_version,
            manufacturer_info,
            serial_number,
            device_capability,
            maximum_device_response_time,
            manifest_table_address,
            sbrm_address,
            timestamp_increment,
            device_software_interface_version,
        })
    }
}

/// The `SBRM` registers at `addr` read after the version and the capability, in order
/// (address, length, kind); the `SIRM`, `EIRM` and `IIDC2` registers only when the capability
/// has them, the current speed last.
pub open spec fn sbrm_regs(addr: u64, sirm: bool, eirm: bool, iidc2: bool) -> Seq<(u64, nat, u8)> {
    seq![
        ((sbrm::MAXIMUM_COMMAND_TRANSFER_LENGTH.0 + addr) as u64, 4nat, 0u8),
        ((sbrm::MAXIMUM_ACKNOWLEDGE_TRANSFER_LENGTH.0 + addr) as u64, 4nat, 0u8),
        ((sbrm::NUMBER_OF_STREAM_CHANNELS.0 + addr) as u64, 4nat, 0u8),
    ] + (if sirm {
        seq![
            ((sbrm::SIRM_ADDRESS.0 + addr) as u64, 8nat, 0u8),
            ((sbrm::SIRM_LENGTH.0 + addr) as u64, 4nat, 0u8),
        ]
    } else {
        Seq::empty()
    }) + (if eirm {
        seq![
            ((sbrm::EIRM_ADDRESS.0 + addr) as u64, 8nat, 0u8),
            ((sbrm::EIRM_LENGTH.0 + addr) as u64, 4nat, 0u8),
        ]
    } else {
        Seq::empty()
    }) + (if iidc2 {
        seq![((sbrm::IIDC2_ADDRESS.0 + addr) as u64, 8nat, 0u8)]
    } else {
        Seq::empty()
    }) + seq![((sbrm::CURRENT_SPEED.0 + addr) as u64, 4nat, 2u8)]
}

/// The fields of `d` are those the version bytes `vb`, the capability `cap` and the `SBRM`
/// registers read at `s` of `log` hold.
pub open spec fn sbrm_fields(
    d: SbrmStaticData,
    vb: Seq<u8>,
    cap: Seq<u8>,
    log: MemoryLog,
    s: int,
) -> bool {
    let a = if bit_of(cap, 0) {
        2int
    } else {
        0int
    };
    let b = if bit_of(cap, 1) {
        2int
    } else {
        0int
    };
    let c = if bit_of(cap, 2) {
        1int
    } else {
        0int
    };
    &&& d.u3v_version == version_from_bytes(vb)
    &&& d.u3v_capability.0@ == cap
    &&& d.maximum_command_transfer_length == le32(register_bytes(log, s, 0))
    &&& d.maximum_acknowledge_trasfer_length == le32(register_bytes(log, s, 1))
    &&& d.number_of_stream_channel == le32(register_bytes(log, s, 2))
    &&& if bit_of(cap, 0) {
        d.sirm_address == Some(le64(register_bytes(log, s, 3))) && d.sirm_length == Some(
            le32(register_bytes(log, s, 4)),
        )
    } else {
        d.sirm_address is None && d.sirm_length is None
    }
    &&& if bit_of(cap, 1) {
        d.eirm_address == Some(le64(register_bytes(log, s, 3 + a))) && d.eirm_length == Some(
            le32(register_bytes(log, s, 4 + a)),
        )
    } else {
        d.eirm_address is None && d.eirm_length is None
    }
    &&& if bit_of(cap, 2) {
        d.iidc2_address == Some(le64(register_bytes(log, s, 3 + a + b)))
    } else {
        d.iidc2_address is None
    }
    &&& bus_speed_of(le32(register_bytes(log, s, 3 + a + b + c))) == Some(d.current_speed)
}

/// What reading the fixed `SBRM` registers at `addr` does to the accesses of `log` from `n` on
/// and gives: the version and the capability are read first; then the registers of
/// [`sbrm_regs`] in order, and the fields are what they hold ([`sbrm_fields`]); the first read
/// that fails gives its error, an unknown current speed `InternalError`.
pub open spec fn sbrm_static_read(
    log: MemoryLog,
    n: int,
    addr: u64,
    r: DeviceResult<SbrmStaticData>,
) -> bool {
    &&& 0 <= n < log.len()
    &&& op_read(log[n], (sbrm::U3V_VERSION.0 + addr) as u64, 4)
    &&& match op_answer(log[n]) {
        Err(e) => log.len() == n + 1 && r == Err::<SbrmStaticData, DeviceError>(e),
        Ok(vb) => {
            &&& n + 1 < log.len()
            &&& op_read(log[n + 1], (sbrm::U3VCP_CAPABILITY_REGISTER.0 + addr) as u64, 8)
            &&& match op_answer(log[n + 1]) {
                Err(e) => log.len() == n + 2 && r == Err::<SbrmStaticData, DeviceError>(e),
                Ok(cap) => {
                    let regs = sbrm_regs(addr, bit_of(cap, 0), bit_of(cap, 1), bit_of(cap, 2));
                    match r {
                        Ok(d) => registers_read(log, n + 2, regs) && sbrm_fields(
                            d,
                            vb,
                            cap,
                            log,
                            n + 2,
                        ),
                        Err(e) => registers_failed(log, n + 2, regs, e),
                    }
                },
            }
        },
    }
}

/// The list of [`sbrm_regs`].
fn sbrm_register_list(addr: u64, sirm: bool, eirm: bool, iidc2: bool) -> (r: Vec<(u64, u16, u8)>)
    requires
        addr <= u64::MAX - 0x44,
    ensures
        reg_specs(r@) == sbrm_regs(addr, sirm, eirm, iidc2),
{
    let mut v: Vec<(u64, u16, u8)> = Vec::new();
    v.push((sbrm::MAXIMUM_COMMAND_TRANSFER_LENGTH.0 + addr, 4, 0));
    v.push((sbrm::MAXIMUM_ACKNOWLEDGE_TRANSFER_LENGTH.0 + addr, 4, 0));
    v.push((sbrm::NUMBER_OF_STREAM_CHANNELS.0 + addr, 4, 0));
    if sirm {
        v.push((sbrm::SIRM_ADDRESS.0 + addr, 8, 0));
        v.push((sbrm::SIRM_LENGTH.0 + addr, 4, 0));
    }
    if eirm {
        v.push((sbrm::EIRM_ADDRESS.0 + addr, 8, 0));
        v.push((sbrm::EIRM_LENGTH.0 + addr, 4, 0));
    }
    if iidc2 {
        v.push((sbrm::IIDC2_ADDRESS.0 + addr, 8, 0));
    }
    v.push((sbrm::CURRENT_SPEED.0 + addr, 4, 2));
    assert(reg_specs(v@) =~= sbrm_regs(addr, sirm, eirm, iidc2));
    v
}

/// The register values of the `SBRM` that stay fixed while the device is open.
pub struct SbrmStaticData {
    pub u3v_version: Version,
    pub u3v_capability: U3VCapablitiy,
    pub maximum_command_transfer_length: u32,
    pub maximum_acknowledge_trasfer_length: u32,
    pub number_of_stream_channel: u32,
    pub sirm_address: Option<u64>,
    pub sirm_length: Option<u32>,
    pub eirm_address: Option<u64>,
    pub eirm_length: Option<u32>,
    pub iidc2_address: Option<u64>,
    pub current_speed: BusSpeed,
}

impl SbrmStaticData {
    /// Reads the fixed registers of the `SBRM` at `sbrm_addr`, as [`sbrm_static_read`] states:
    /// the version and the capability first, then the registers of [`sbrm_regs`]; the `SIRM`,
    /// `EIRM` and `IIDC2` registers are read only when the capability has them.
    pub fn new<H: MemoryAccess + ?Sized>(sbrm_addr: u64, handle: &mut H) -> (r: DeviceResult<Self>)
        requires
            sbrm_addr <= u64::MAX - 0x44,
        ensures
            final(handle).mem_accesses().take(old(handle).mem_accesses().len() as int) == old(
                handle,
            ).mem_accesses(),
            sbrm_static_read(
                final(handle).mem_accesses(),
                old(handle).mem_accesses().len() as int,
                sbrm_addr,
                r,
            ),
    {
        let ghost l0 = handle.mem_accesses();
        let ghost n = l0.len() as int;
        let version_bytes = match read_register(handle, sbrm::U3V_VERSION.0 + sbrm_addr, 4) {
            Ok(b) => b,
            Err(e) => {
                assert(handle.mem_accesses().take(n) =~= l0);
                return Err(e);
            },
        };
        let ghost l1 = handle.mem_accesses();
        assert(l1.take(n) =~= l0);
        let u3v_version = parse_version(version_bytes.as_slice());
        let cap_bytes = match read_register(
            handle,
            sbrm::U3VCP_CAPABILITY_REGISTER.0 + sbrm_addr,
            8,
        ) {
            Ok(b) => b,
            Err(e) => {
                assert(handle.mem_accesses().take(n) =~= l0);
                assert(handle.mem_accesses()[n] == l1[n]);
                return Err(e);
            },
        };
        let ghost l2 = handle.mem_accesses();
        assert(l2.take(n) =~= l0);
        assert(l2[n] == l1[n]);
        let u3v_capability = U3VCapablitiy(to_array8(cap_bytes.as_slice()));
        let sirm = u3v_capability.is_sirm_available();
        let eirm = u3v_capability.is_eirm_available();
        let iidc2 = u3v_capability.is_iidc2_available();
        let regs = sbrm_register_list(sbrm_addr, sirm, eirm, iidc2);
        let ghost specs = sbrm_regs(sbrm_addr, sirm, eirm, iidc2);
        let res = read_registers(handle, &regs);
        let ghost f = handle.mem_accesses();
        proof {
            assert(f.take(n + 2) == l2);
            assert(f.take(n) =~= l0) by {
                assert(f.take(n) =~= f.take(n + 2).take(n));
            }
            assert(f[n] == l2[n]) by {
                assert(f.take(n + 2)[n] == f[n]);
            }
            assert(f[n + 1] == l2[n + 1]) by {
                assert(f.take(n + 2)[n + 1] == f[n + 1]);
            }
        }
        let vals = match res {
            Ok(v) => v,
            Err(e) => return Err(e),
        };
        proof {
            lemma_sbrm_regs(sbrm_addr, sirm, eirm, iidc2);
            let s = n + 2;
            assert forall|j: int| 0 <= j < specs.len() implies vals@[j]@.len() == specs[j].1
                && register_valid(specs[j].2, vals@[j]@) by {
                assert(read_ok(f, s, specs, j));
                assert(vals@[j]@ == register_bytes(f, s, j));
            }
        }
        let a: usize = if sirm {
            2
        } else {
            0
        };
        let b: usize = if eirm {
            2
        } else {
            0
        };
        let c: usize = if iidc2 {
            1
        } else {
            0
        };
        let maximum_command_transfer_length = parse_u32(vals[0].as_slice());
        let maximum_acknowledge_trasfer_length = parse_u32(vals[1].as_slice());
        let number_of_stream_channel = parse_u32(vals[2].as_slice());
        let (sirm_address, sirm_length) = if sirm {
            (Some(parse_u64(vals[3].as_slice())), Some(parse_u32(vals[4].as_slice())))
        } else {
            (None, None)
        };
        let (eirm_address, eirm_length) = if eirm {
            (Some(parse_u64(vals[3 + a].as_slice())), Some(parse_u32(vals[4 + a].as_slice())))
        } else {
            (None, None)
        };
        let iidc2_address = if iidc2 {
            Some(parse_u64(vals[3 + a + b].as_slice()))
        } else {
            None
        };
        let current_speed = match bus_speed_from(vals[3 + a + b + c].as_slice()) {
            Some(s) => s,
            None => return Err(DeviceError::InternalError("invalid bus speed defined")),
        };
        Ok(SbrmStaticData {
            u3v_version,
            u3v_capability,
            maximum_command_transfer_length,
            maximum_acknowledge_trasfer_length,
            number_of_stream_channel,
            sirm_address,
            sirm_length,
            eirm_address,
            eirm_length,
            iidc2_address,
            current_speed,
        })
    }
}

/// The bus speed of a current speed register of four bytes, if it is a known one.
pub fn bus_speed_from(bytes: &[u8]) -> (r: Option<BusSpeed>)
    requires
        bytes@.len() == 4,
    ensures
        r == bus_speed_of(le32(bytes@)),
{
    match BusSpeed::parse_bytes(bytes) {
        Ok(s) => Some(s),
        Err(_) => None,
    }
}

} // verus!
