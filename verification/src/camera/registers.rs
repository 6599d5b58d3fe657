//! Reading and writing register values: the little endian codecs of register contents and the
//! read of a register through a [`DeviceControl`].

use vstd::prelude::*;
use vstd::utf8::{decode_utf8, encode_utf8, valid_utf8};

use crate::bytes::{
    first_nul, is_first_nul, le16, le16_bytes, le32, le32_bytes, le64, le64_bytes, nul_or, str_from_utf8,
};
use crate::control::{
    behaves_as_memory, map_answer, memory_byte, read_agrees, read_answer, read_logged, AccessLog,
    ControlError, ControlResult, DeviceAccess, DeviceControl,
};

verus! {

/// The text of a string register: the bytes up to the first NUL, or all of them.
pub open spec fn register_text(bytes: Seq<u8>) -> Seq<u8> {
    bytes.subrange(0, nul_or(bytes, bytes.len() as int))
}

/// Parses a string register; the text must be valid UTF-8, else `InvalidDevice`.
pub fn parse_string(bytes: &[u8]) -> (r: ControlResult<String>)
    ensures
        r is Ok <==> valid_utf8(register_text(bytes@)),
        r matches Ok(s) ==> s@ == decode_utf8(register_text(bytes@)),
        r matches Err(e) ==> e is InvalidDevice,
{
    let len = match first_nul(bytes) {
        Some(len) => len,
        None => bytes.len(),
    };
    let text = vstd::slice::slice_subrange(bytes, 0, len);
    match str_from_utf8(text) {
        Some(s) => Ok(s.to_owned()),
        None => Err(ControlError::InvalidDevice("device's string register value is broken")),
    }
}

/// Parses a little endian `u8`.
pub fn parse_u8(bytes: &[u8]) -> (r: u8)
    requires
        bytes@.len() == 1,
    ensures
        r == bytes@[0],
{
    bytes[0]
}

/// Parses a little endian `u16`.
pub fn parse_u16(bytes: &[u8]) -> (r: u16)
    requires
        bytes@.len() == 2,
    ensures
        r == le16(bytes@),
{
    let r = crate::bytes::get_le16(bytes, 0);
    assert(bytes@.subrange(0, 2) =~= bytes@);
    r
}

/// Parses a little endian `u32`.
pub fn parse_u32(bytes: &[u8]) -> (r: u32)
    requires
        bytes@.len() == 4,
    ensures
        r == le32(bytes@),
{
    let r = crate::bytes::get_le32(bytes, 0);
    assert(bytes@.subrange(0, 4) =~= bytes@);
    r
}

/// Parses a little endian `u64`.
pub fn parse_u64(bytes: &[u8]) -> (r: u64)
    requires
        bytes@.len() == 8,
    ensures
        r == le64(bytes@),
{
    let r = crate::bytes::get_le64(bytes, 0);
    assert(bytes@.subrange(0, 8) =~= bytes@);
    r
}

/// Parses a little endian `i8`.
pub fn parse_i8(bytes: &[u8]) -> (r: i8)
    requires
        bytes@.len() == 1,
    ensures
        r == bytes@[0] as i8,
{
    bytes[0] as i8
}

/// Parses a little endian `i16`.
pub fn parse_i16(bytes: &[u8]) -> (r: i16)
    requires
        bytes@.len() == 2,
    ensures
        r == le16(bytes@) as i16,
{
    parse_u16(bytes) as i16
}

/// Parses a little endian `i32`.
pub fn parse_i32(bytes: &[u8]) -> (r: i32)
    requires
        bytes@.len() == 4,
    ensures
        r == le32(bytes@) as i32,
{
    parse_u32(bytes) as i32
}

/// Parses a little endian `i64`.
pub fn parse_i64(bytes: &[u8]) -> (r: i64)
    requires
        bytes@.len() == 8,
    ensures
        r == le64(bytes@) as i64,
{
    parse_u64(bytes) as i64
}

/// Writes the little endian bytes of a `u16` into `buf`, which holds exactly two bytes.
pub fn dump_u16(x: u16, buf: &mut [u8])
    requires
        old(buf)@.len() == 2,
    ensures
        final(buf)@ == le16_bytes(x),
{
    buf[0] = (x % 0x100) as u8;
    buf[1] = (x / 0x100) as u8;
    assert(buf@ =~= le16_bytes(x));
}

/// Writes the little endian bytes of a `u32` into `buf`, which holds exactly four bytes.
pub fn dump_u32(x: u32, buf: &mut [u8])
    requires
        old(buf)@.len() == 4,
    ensures
        final(buf)@ == le32_bytes(x),
{
    buf[0] = (x % 0x100) as u8;
    buf[1] = ((x / 0x100) % 0x100) as u8;
    buf[2] = ((x / 0x1_0000) % 0x100) as u8;
    buf[3] = (x / 0x100_0000) as u8;
    assert(buf@ =~= le32_bytes(x));
}

/// Writes the little endian bytes of a `u64` into `buf`, which holds exactly eight bytes.
pub fn dump_u64(x: u64, buf: &mut [u8])
    requires
        old(buf)@.len() == 8,
    ensures
        final(buf)@ == le64_bytes(x),
{
    let lo = (x % 0x1_0000_0000) as u32;
    let hi = (x / 0x1_0000_0000) as u32;
    buf[0] = (lo % 0x100) as u8;
    buf[1] = ((lo / 0x100) % 0x100) as u8;
    buf[2] = ((lo / 0x1_0000) % 0x100) as u8;
    buf[3] = (lo / 0x100_0000) as u8;
    buf[4] = (hi % 0x100) as u8;
    buf[5] = ((hi / 0x100) % 0x100) as u8;
    buf[6] = ((hi / 0x1_0000) % 0x100) as u8;
    buf[7] = (hi / 0x100_0000) as u8;
    assert(buf@ =~= le64_bytes(x));
}

/// The bytes of an ASCII string: one per character.
pub open spec fn ascii_bytes(s: Seq<char>) -> Seq<u8> {
    Seq::new(s.len(), |i: int| s[i] as u8)
}

/// `s` holds only ASCII characters.
pub open spec fn is_ascii_text(s: Seq<char>) -> bool {
    vstd::utf8::is_ascii_chars(s)
}

/// What writing `s` into a buffer of `len` bytes leaves there, when it fits: its bytes, then a
/// terminating NUL if there is room; the bytes after that NUL are those the buffer held.
pub open spec fn dumped_string(s: Seq<char>, old_buf: Seq<u8>) -> Seq<u8> {
    let n = s.len() as int;
    if n < old_buf.len() {
        ascii_bytes(s) + seq![0u8] + old_buf.subrange(n + 1, old_buf.len() as int)
    } else {
        ascii_bytes(s)
    }
}

/// Writes an ASCII string into `buf`, NUL terminated when shorter than `buf`. A string that is
/// not ASCII, or longer than `buf`, is refused with `InvalidData` and `buf` is left unchanged.
pub fn dump_string(s: &str, buf: &mut [u8]) -> (r: ControlResult<()>)
    ensures
        !is_ascii_text(s@) ==> (r matches Err(ControlError::InvalidData(_)) && final(buf)@ == old(buf)@),
        is_ascii_text(s@) && s@.len() > old(buf)@.len() ==> (r matches Err(
            ControlError::InvalidData(_),
        ) && final(buf)@ == old(buf)@),
        is_ascii_text(s@) && s@.len() <= old(buf)@.len() ==> r is Ok && final(buf)@
            == dumped_string(s@, old(buf)@),
{
    if !s.is_ascii() {
        return Err(ControlError::InvalidData("string encoding must be ascii"));
    }
    proof {
        vstd::string::is_ascii_spec_bytes(s);
    }
    let bytes = s.as_bytes();
    let data_len = bytes.len();
    if data_len > buf.len() {
        return Err(ControlError::InvalidData("too large string"));
    }
    let ghost old_buf = buf@;
    let mut i: usize = 0;
    while i < data_len
        invariant
            i <= data_len <= buf@.len(),
            buf@.len() == old_buf.len(),
            bytes@.len() == data_len,
            forall|j: int| 0 <= j < i ==> buf@[j] == bytes@[j],
            forall|j: int| i <= j < buf@.len() ==> buf@[j] == old_buf[j],
        decreases data_len - i,
    {
        buf[i] = bytes[i];
        i = i + 1;
    }
    if data_len < buf.len() {
        buf[data_len] = 0;
    }
    proof {
        assert(bytes@ =~= ascii_bytes(s@));
        assert(buf@ =~= dumped_string(s@, old_buf));
    }
    Ok(())
}

/// A `u16` written into a register buffer parses back to itself.
pub proof fn lemma_u16_register_roundtrip(x: u16)
    ensures
        le16(le16_bytes(x)) == x,
{
    assert(((x / 0x100) as u8) as u16 * 0x100 + ((x % 0x100) as u8) as u16 == x) by (bit_vector);
}

/// A `u32` written into a register buffer parses back to itself.
pub proof fn lemma_u32_register_roundtrip(x: u32)
    ensures
        le32(le32_bytes(x)) == x,
{
    assert(((x / 0x100_0000) as u8) as u32 * 0x100_0000 + (((x / 0x1_0000) % 0x100) as u8) as u32
        * 0x1_0000 + (((x / 0x100) % 0x100) as u8) as u32 * 0x100 + ((x % 0x100) as u8) as u32
        == x) by (bit_vector);
}

/// On a device that behaves as a byte memory, a 4 byte register read right after a
/// successful write of `x` there reads `x` back, when the read succeeds.
pub proof fn lemma_u32_register_reads_back(
    l0: AccessLog,
    l1: AccessLog,
    l2: AccessLog,
    addr: u64,
    x: u32,
    r: ControlResult<u32>,
)
    requires
        write_logged(l0, l1, addr, le32_bytes(x), Ok(())),
        read_u32_logged(l1, l2, addr, r),
        behaves_as_memory(l2),
        read_answer(l2) is Ok,
    ensures
        r == Ok::<u32, ControlError>(x),
{
    let j = l2.len() - 1;
    let d = read_answer(l2)->Ok_0;
    assert(l2[j - 1] == l1[j - 1]);
    assert forall|k: int| 0 <= k < 4 implies d[k] == le32_bytes(x)[k] by {
        assert(read_agrees(l2, j, k));
        assert(memory_byte(l2, j, addr + k) == Some(le32_bytes(x)[k]));
    }
    assert(d =~= le32_bytes(x));
    lemma_u32_register_roundtrip(x);
}

/// A `u64` written into a register buffer parses back to itself.
pub proof fn lemma_u64_register_roundtrip(x: u64)
    ensures
        le64(le64_bytes(x)) == x,
{
    let lo = (x % 0x1_0000_0000) as u32;
    let hi = (x / 0x1_0000_0000) as u32;
    lemma_u32_register_roundtrip(lo);
    lemma_u32_register_roundtrip(hi);
    let b = le64_bytes(x);
    assert(b.subrange(0, 4) =~= le32_bytes(lo));
    assert(b.subrange(4, 8) =~= le32_bytes(hi));
    assert(le64(b) == le32(b.subrange(0, 4)) as u64 + le32(b.subrange(4, 8)) as u64 * 0x1_0000_0000);
    assert(lo as u64 + hi as u64 * 0x1_0000_0000 == x) by (bit_vector)
        requires
            lo == (x % 0x1_0000_0000) as u32,
            hi == (x / 0x1_0000_0000) as u32,
    ;
}

/// An ASCII string without NUL that fits a string register reads back unchanged after it is
/// written there, whatever the register held before.
pub proof fn lemma_string_register_roundtrip(s: Seq<char>, old_buf: Seq<u8>)
    requires
        is_ascii_text(s),
        forall|i: int| 0 <= i < s.len() ==> s[i] != '\0',
        s.len() <= old_buf.len(),
    ensures
        valid_utf8(register_text(dumped_string(s, old_buf))),
        decode_utf8(register_text(dumped_string(s, old_buf))) == s,
{
    broadcast use vstd::utf8::encode_utf8_valid_utf8, vstd::utf8::encode_utf8_decode_utf8;
    let d = dumped_string(s, old_buf);
    let n = s.len() as int;
    vstd::utf8::is_ascii_chars_encode_utf8(s);
    vstd::utf8::is_ascii_chars_nat_bound(s);
    assert(ascii_bytes(s) =~= encode_utf8(s));
    assert forall|j: int| 0 <= j < n implies d[j] != 0 by {
        assert(d[j] == s[j] as u8);
        assert((s[j] as nat) < 128);
        assert(s[j] != '\0');
    }
    if n < old_buf.len() {
        assert(is_first_nul(d, n));
        assert forall|c: int| is_first_nul(d, c) implies c == n by {
            if c < n {
                assert(d[c] != 0);
            }
            if n < c {
                assert(d[n] == 0);
            }
        }
        assert(nul_or(d, d.len() as int) == n);
    } else {
        assert forall|c: int| !is_first_nul(d, c) by {
            if 0 <= c < d.len() {
                assert(d[c] != 0);
            }
        }
        assert(nul_or(d, d.len() as int) == n);
    }
    assert(register_text(d) =~= encode_utf8(s));
}

/// What parsing a string register of bytes `b` gives, as [`parse_string`] states it.
pub open spec fn parsed_string(b: Seq<u8>, r: ControlResult<String>) -> bool {
    &&& r is Ok <==> valid_utf8(register_text(b))
    &&& r matches Ok(s) ==> s@ == decode_utf8(register_text(b))
    &&& r matches Err(e) ==> e is InvalidDevice
}

/// The little endian `u32` of the bytes a read answered.
pub open spec fn answer_le32(a: Result<Seq<u8>, ControlError>) -> Result<u32, ControlError> {
    map_answer(a, |b: Seq<u8>| le32(b))
}

/// The little endian `u64` of the bytes a read answered.
pub open spec fn answer_le64(a: Result<Seq<u8>, ControlError>) -> Result<u64, ControlError> {
    map_answer(a, |b: Seq<u8>| le64(b))
}

/// `new_log` adds one read of 4 bytes at `addr` to `old_log`, and `r` is its little endian
/// value or its error.
pub open spec fn read_u32_logged(
    old_log: Seq<DeviceAccess>,
    new_log: Seq<DeviceAccess>,
    addr: u64,
    r: ControlResult<u32>,
) -> bool {
    read_logged(old_log, new_log, addr, 4) && r == answer_le32(read_answer(new_log))
}

/// `new_log` adds one read of 8 bytes at `addr` to `old_log`, and `r` is its little endian
/// value or its error.
pub open spec fn read_u64_logged(
    old_log: Seq<DeviceAccess>,
    new_log: Seq<DeviceAccess>,
    addr: u64,
    r: ControlResult<u64>,
) -> bool {
    read_logged(old_log, new_log, addr, 8) && r == answer_le64(read_answer(new_log))
}

/// `new_log` adds one read of `len` bytes at `addr` to `old_log`, and `r` is the string
/// register those bytes hold, or the read's error.
pub open spec fn read_string_logged(
    old_log: Seq<DeviceAccess>,
    new_log: Seq<DeviceAccess>,
    addr: u64,
    len: nat,
    r: ControlResult<String>,
) -> bool {
    &&& read_logged(old_log, new_log, addr, len)
    &&& match read_answer(new_log) {
        Ok(b) => parsed_string(b, r),
        Err(e) => r == Err::<String, ControlError>(e),
    }
}

/// `new_log` adds to `old_log` one write of `data` at `addr`, whose answer is `r`.
pub open spec fn write_logged(
    old_log: Seq<DeviceAccess>,
    new_log: Seq<DeviceAccess>,
    addr: u64,
    data: Seq<u8>,
    r: ControlResult<()>,
) -> bool {
    new_log == old_log.push(DeviceAccess::Write { address: addr, data, answer: r })
}

/// What reading the 4 byte registers at `addrs` in order gives, from the access at `start` of
/// `log` on: the reads stop at the first one that fails, whose error is the result; else the
/// little endian values. `None` when the accesses from `start` on are not exactly those reads.
pub open spec fn u32_reads(log: Seq<DeviceAccess>, start: int, addrs: Seq<u64>) -> Option<
    Result<Seq<u32>, ControlError>,
>
    decreases addrs.len(),
{
    if addrs.len() == 0 {
        if log.len() == start {
            Some(Ok(Seq::empty()))
        } else {
            None
        }
    } else if 0 <= start < log.len() {
        match log[start] {
            DeviceAccess::Read { address, len, answer } => if address == addrs[0] && len == 4 && (
            answer matches Ok(d) ==> d.len() == 4) {
                match answer_le32(answer) {
                    Err(e) => if log.len() == start + 1 {
                        Some(Err(e))
                    } else {
                        None
                    },
                    Ok(v) => match u32_reads(log, start + 1, addrs.drop_first()) {
                        Some(Ok(vs)) => Some(Ok(seq![v] + vs)),
                        other => other,
                    },
                }
            } else {
                None
            },
            _ => None,
        }
    } else {
        None
    }
}

/// Reads `len` bytes of the device memory at `addr`: one read, whose bytes or error are the
/// result.
pub fn read_bytes<Ctrl: DeviceControl + ?Sized>(device: &mut Ctrl, addr: u64, len: u16) -> (r:
    ControlResult<Vec<u8>>)
    ensures
        read_logged(old(device).accesses(), final(device).accesses(), addr, len as nat),
        match read_answer(final(device).accesses()) {
            Ok(b) => r matches Ok(v) && v@ == b,
            Err(e) => r == Err::<Vec<u8>, ControlError>(e),
        },
{
    let mut buf: Vec<u8> = vec![0; len as usize];
    match device.read(addr, buf.as_mut_slice()) {
        Ok(()) => Ok(buf),
        Err(e) => Err(e),
    }
}

/// Reads a little endian `u32` register.
pub fn read_u32<Ctrl: DeviceControl + ?Sized>(device: &mut Ctrl, addr: u64) -> (r: ControlResult<
    u32,
>)
    ensures
        read_u32_logged(old(device).accesses(), final(device).accesses(), addr, r),
{
    let buf = read_bytes(device, addr, 4)?;
    let v = parse_u32(buf.as_slice());
    Ok(v)
}

/// Reads a little endian `u64` register.
pub fn read_u64<Ctrl: DeviceControl + ?Sized>(device: &mut Ctrl, addr: u64) -> (r: ControlResult<
    u64,
>)
    ensures
        read_u64_logged(old(device).accesses(), final(device).accesses(), addr, r),
{
    let buf = read_bytes(device, addr, 8)?;
    let v = parse_u64(buf.as_slice());
    Ok(v)
}

/// Reads a string register of `len` bytes.
pub fn read_string<Ctrl: DeviceControl + ?Sized>(device: &mut Ctrl, addr: u64, len: u16) -> (r:
    ControlResult<String>)
    ensures
        read_string_logged(old(device).accesses(), final(device).accesses(), addr, len as nat, r),
{
    let buf = read_bytes(device, addr, len)?;
    parse_string(buf.as_slice())
}

/// Writes the little endian bytes of `x` to a 4 byte register: one write, whose answer is the
/// result.
pub fn write_u32<Ctrl: DeviceControl + ?Sized>(device: &mut Ctrl, addr: u64, x: u32) -> (r:
    ControlResult<()>)
    ensures
        write_logged(old(device).accesses(), final(device).accesses(), addr, le32_bytes(x), r),
{
    let mut buf: Vec<u8> = vec![0; 4];
    dump_u32(x, buf.as_mut_slice());
    device.write(addr, buf.as_slice())
}

/// Writes the little endian bytes of `x` to an 8 byte register: one write, whose answer is the
/// result.
pub fn write_u64<Ctrl: DeviceControl + ?Sized>(device: &mut Ctrl, addr: u64, x: u64) -> (r:
    ControlResult<()>)
    ensures
        write_logged(old(device).accesses(), final(device).accesses(), addr, le64_bytes(x), r),
{
    let mut buf: Vec<u8> = vec![0; 8];
    dump_u64(x, buf.as_mut_slice());
    device.write(addr, buf.as_slice())
}

/// The zero filled buffer of a string register of `len` bytes.
pub open spec fn zeros(len: nat) -> Seq<u8> {
    Seq::new(len, |i: int| 0u8)
}

/// Writes an ASCII string to a string register of `len` bytes, NUL padded; see
/// [`dump_string`] for the strings that are refused without any write.
pub fn write_string<Ctrl: DeviceControl + ?Sized>(
    device: &mut Ctrl,
    addr: u64,
    len: u16,
    s: &str,
) -> (r: ControlResult<()>)
    ensures
        !is_ascii_text(s@) || s@.len() > len ==> (r matches Err(ControlError::InvalidData(_))
            && final(device).accesses() == old(device).accesses()),
        is_ascii_text(s@) && s@.len() <= len ==> write_logged(
            old(device).accesses(),
            final(device).accesses(),
            addr,
            dumped_string(s@, zeros(len as nat)),
            r,
        ),
{
    let mut buf: Vec<u8> = vec![0; len as usize];
    assert(buf@ =~= zeros(len as nat));
    dump_string(s, buf.as_mut_slice())?;
    device.write(addr, buf.as_slice())
}

} // verus!
