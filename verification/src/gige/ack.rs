//! `GVCP` acknowledge packets sent from a `GigE` device to the host.

use vstd::prelude::*;

use crate::bytes::{
    be16, be32, first_nul, from_utf8_lossy, is_first_nul, nul_or, utf8_lossy, Cursor, IoError,
};
use crate::common::Version;

use super::register_map::{DeviceMode, NicCapability, NicConfiguration};
use super::{is_success_kind, parse_status_code, status_kind_of, Error, StatusKind};

verus! {

/// The acknowledge kind that `GigE Vision` assigns to `id`, if any.
pub open spec fn ack_kind_of(id: u16) -> Option<AckKind> {
    if id == 0x0003 {
        Some(AckKind::Discovery)
    } else if id == 0x0081 {
        Some(AckKind::ReadReg)
    } else if id == 0x0083 {
        Some(AckKind::WriteReg)
    } else if id == 0x0085 {
        Some(AckKind::ReadMem)
    } else if id == 0x0087 {
        Some(AckKind::WriteMem)
    } else if id == 0x0089 {
        Some(AckKind::Pending)
    } else {
        None
    }
}

/// The id of an acknowledge is the code of the command it answers plus one, so every known
/// acknowledge id is odd; `0x0089` is the pending acknowledge, which answers no command.
pub proof fn lemma_ack_answers_command(id: u16)
    ensures
        ack_kind_of((crate::gige::cmd::kind_code(crate::gige::cmd::CommandKind::Discovery) + 1) as u16)
            == Some(AckKind::Discovery),
        ack_kind_of((crate::gige::cmd::kind_code(crate::gige::cmd::CommandKind::ReadReg) + 1) as u16)
            == Some(AckKind::ReadReg),
        ack_kind_of((crate::gige::cmd::kind_code(crate::gige::cmd::CommandKind::WriteReg) + 1) as u16)
            == Some(AckKind::WriteReg),
        ack_kind_of((crate::gige::cmd::kind_code(crate::gige::cmd::CommandKind::ReadMem) + 1) as u16)
            == Some(AckKind::ReadMem),
        ack_kind_of((crate::gige::cmd::kind_code(crate::gige::cmd::CommandKind::WriteMem) + 1) as u16)
            == Some(AckKind::WriteMem),
        ack_kind_of(0x0089) == Some(AckKind::Pending),
        ack_kind_of(id) is Some ==> id % 2 == 1,
{
}

/// The error of a read past the end of the packet.
pub open spec fn eof_error() -> Error {
    Error::Io(IoError::UnexpectedEof)
}

/// Kind of an acknowledge.
#[derive(Clone, Copy, Debug, PartialEq, Eq, Structural)]
pub enum AckKind {
    Discovery,
    ReadReg,
    WriteReg,
    ReadMem,
    WriteMem,
    PacketResend,
    Pending,
}

impl AckKind {
    /// Decodes an acknowledge id.
    pub fn from_code(id: u16) -> (r: Option<AckKind>)
        ensures
            r == ack_kind_of(id),
    {
        match id {
            0x0003 => Some(AckKind::Discovery),
            0x0081 => Some(AckKind::ReadReg),
            0x0083 => Some(AckKind::WriteReg),
            0x0085 => Some(AckKind::ReadMem),
            0x0087 => Some(AckKind::WriteMem),
            0x0089 => Some(AckKind::Pending),
            _ => None,
        }
    }

    /// Reads a big endian acknowledge id and decodes it.
    fn parse(cursor: &mut Cursor) -> (r: Result<AckKind, Error>)
        ensures
            final(cursor).data() == old(cursor).data(),
            !old(cursor).can_read(2) ==> r == Err::<AckKind, Error>(eof_error()),
            old(cursor).can_read(2) ==> {
                &&& final(cursor).pos() == old(cursor).pos() + 2
                &&& match ack_kind_of(be16(old(cursor).ahead(2))) {
                    Some(kind) => r == Ok::<AckKind, Error>(kind),
                    None => r matches Err(Error::InvalidPacket(_)),
                }
            },
    {
        let id = match cursor.read_be16() {
            Ok(id) => id,
            Err(e) => return Err(Error::Io(e)),
        };
        match AckKind::from_code(id) {
            Some(kind) => Ok(kind),
            None => Err(Error::InvalidPacket("unknown ack kind id")),
        }
    }
}

/// Status of an acknowledge.
#[derive(Clone, Copy, Debug, PartialEq, Eq, Structural)]
pub struct Status {
    code: u16,
    kind: StatusKind,
}

impl Status {
    /// The status code.
    pub closed spec fn spec_code(self) -> u16 {
        self.code
    }

    /// The status kind.
    pub closed spec fn spec_kind(self) -> StatusKind {
        self.kind
    }

    /// Returns `true` for `Success` and `PacketResend`.
    pub fn is_success(self) -> (r: bool)
        ensures
            r == is_success_kind(self.spec_kind()),
    {
        self.kind.is_success()
    }

    /// The status code.
    pub fn code(self) -> (r: u16)
        ensures
            r == self.spec_code(),
    {
        self.code
    }

    /// The status kind.
    pub fn kind(self) -> (r: StatusKind)
        ensures
            r == self.spec_kind(),
    {
        self.kind
    }

    /// Reads a big endian status code and decodes it.
    fn parse(cursor: &mut Cursor) -> (r: Result<Self, Error>)
        ensures
            final(cursor).data() == old(cursor).data(),
            !old(cursor).can_read(2) ==> r == Err::<Self, Error>(eof_error()),
            old(cursor).can_read(2) ==> {
                let code = be16(old(cursor).ahead(2));
                &&& final(cursor).pos() == old(cursor).pos() + 2
                &&& match status_kind_of(code) {
                    Some(kind) => r matches Ok(s) && s.spec_code() == code && s.spec_kind()
                        == kind,
                    None => r matches Err(Error::InvalidPacket(_)),
                }
            },
    {
        let (code, kind) = parse_status_code(cursor)?;
        Ok(Status { code, kind })
    }
}

/// Header of an acknowledge.
#[derive(Clone, Copy, Debug, PartialEq, Eq, Structural)]
pub struct Header {
    status: Status,
    ack_kind: AckKind,
    length: u16,
    request_id: u16,
}

/// The first eight bytes of `d` form a header with a known status and kind.
pub open spec fn header_valid(d: Seq<u8>) -> bool {
    &&& d.len() >= 8
    &&& status_kind_of(be16(d.subrange(0, 2))) is Some
    &&& ack_kind_of(be16(d.subrange(2, 4))) is Some
}

/// `h` holds the fields of the header at the start of `d`.
pub open spec fn header_matches(h: Header, d: Seq<u8>) -> bool {
    &&& h.spec_status().spec_code() == be16(d.subrange(0, 2))
    &&& Some(h.spec_status().spec_kind()) == status_kind_of(be16(d.subrange(0, 2)))
    &&& Some(h.spec_ack_kind()) == ack_kind_of(be16(d.subrange(2, 4)))
    &&& h.spec_length() == be16(d.subrange(4, 6))
    &&& h.spec_request_id() == be16(d.subrange(6, 8))
}

/// `e` is the error of parsing a header out of `d`, which is not a valid header: the first
/// field that is missing or unknown decides it.
pub open spec fn header_failure(d: Seq<u8>, e: Error) -> bool {
    if d.len() < 2 {
        e == eof_error()
    } else if status_kind_of(be16(d.subrange(0, 2))) is None {
        e is InvalidPacket
    } else if d.len() < 4 {
        e == eof_error()
    } else if ack_kind_of(be16(d.subrange(2, 4))) is None {
        e is InvalidPacket
    } else {
        e == eof_error()
    }
}

impl Header {
    /// The status.
    pub closed spec fn spec_status(self) -> Status {
        self.status
    }

    /// The acknowledge kind.
    pub closed spec fn spec_ack_kind(self) -> AckKind {
        self.ack_kind
    }

    /// The length field.
    pub closed spec fn spec_length(self) -> u16 {
        self.length
    }

    /// The request id.
    pub closed spec fn spec_request_id(self) -> u16 {
        self.request_id
    }

    /// Parses the header at the start of `buf`.
    fn parse(cursor: &mut Cursor) -> (r: Result<Self, Error>)
        requires
            old(cursor).pos() == 0,
        ensures
            final(cursor).data() == old(cursor).data(),
            r is Ok <==> header_valid(old(cursor).data()),
            r matches Ok(h) ==> header_matches(h, old(cursor).data()) && final(cursor).pos()
                == 8,
            r matches Err(e) ==> header_failure(old(cursor).data(), e),
    {
        let ghost d = cursor.data();
        let status = Status::parse(cursor)?;
        assert(cursor.ahead(2) =~= d.subrange(2, 4));
        let ack_kind = AckKind::parse(cursor)?;
        assert(cursor.ahead(2) =~= d.subrange(4, 6));
        let length = match cursor.read_be16() {
            Ok(v) => v,
            Err(e) => return Err(Error::Io(e)),
        };
        assert(cursor.ahead(2) =~= d.subrange(6, 8));
        let request_id = match cursor.read_be16() {
            Ok(v) => v,
            Err(e) => return Err(Error::Io(e)),
        };
        Ok(Header { status, ack_kind, length, request_id })
    }
}

/// An acknowledge packet: its header and the bytes after it.
#[derive(Clone, Debug, PartialEq, Eq)]
pub struct AckPacket<'a> {
    header: Header,
    raw_ack_data: &'a [u8],
}

impl<'a> AckPacket<'a> {
    /// The header.
    pub closed spec fn spec_header(&self) -> Header {
        self.header
    }

    /// The bytes after the header.
    pub closed spec fn spec_raw_ack_data(&self) -> Seq<u8> {
        self.raw_ack_data@
    }

    /// Parses a packet. Besides the errors of the header, a buffer shorter than the length
    /// field of the header is refused with `InvalidPacket`.
    pub fn parse(buf: &'a [u8]) -> (r: Result<Self, Error>)
        ensures
            r is Ok <==> header_valid(buf@) && buf@.len() >= be16(buf@.subrange(4, 6)),
            r matches Ok(p) ==> header_matches(p.spec_header(), buf@) && p.spec_raw_ack_data()
                == buf@.subrange(8, buf@.len() as int),
            r matches Err(e) ==> if header_valid(buf@) {
                e is InvalidPacket
            } else {
                header_failure(buf@, e)
            },
    {
        let mut cursor = Cursor::new(buf);
        let header = Header::parse(&mut cursor)?;
        if buf.len() < header.length as usize {
            return Err(Error::InvalidPacket("ack data length is smaller than specified length in header"));
        }
        let raw_ack_data = vstd::slice::slice_subrange(buf, 8, buf.len());
        Ok(AckPacket { header, raw_ack_data })
    }

    /// The header.
    pub fn header(&self) -> (r: &Header)
        ensures
            *r == self.spec_header(),
    {
        &self.header
    }

    /// The acknowledge kind.
    pub fn ack_kind(&self) -> (r: AckKind)
        ensures
            r == self.spec_header().spec_ack_kind(),
    {
        self.header.ack_kind
    }

    /// Parses the bytes after the header as the acknowledge data `T`.
    pub fn ack_data_as<T: ParseAckData<'a>>(&self) -> (r: Result<T, Error>)
        requires
            T::parse_requires(self.spec_raw_ack_data(), self.spec_header()),
        ensures
            T::parse_spec(self.spec_raw_ack_data(), self.spec_header(), r),
    {
        T::parse(self.raw_ack_data, &self.header)
    }

    /// The bytes after the header.
    pub fn raw_ack_data(&self) -> (r: &[u8])
        ensures
            r@ == self.spec_raw_ack_data(),
    {
        self.raw_ack_data
    }

    /// The request id.
    pub fn request_id(&self) -> (r: u16)
        ensures
            r == self.spec_header().spec_request_id(),
    {
        self.header.request_id
    }

    /// The status.
    pub fn status(&self) -> (r: Status)
        ensures
            r == self.spec_header().spec_status(),
    {
        self.header.status
    }
}

/// Acknowledge data that can be parsed out of the bytes after a header.
pub trait ParseAckData<'a>: Sized {
    /// The inputs on which parsing is defined.
    spec fn parse_requires(raw: Seq<u8>, header: Header) -> bool;

    /// `r` is what parsing `raw` under `header` gives.
    spec fn parse_spec(raw: Seq<u8>, header: Header, r: Result<Self, Error>) -> bool;

    /// Parses the acknowledge data.
    fn parse(raw_data: &'a [u8], header: &Header) -> (r: Result<Self, Error>)
        requires
            Self::parse_requires(raw_data@, *header),
        ensures
            Self::parse_spec(raw_data@, *header, r),
    ;
}

/// The end, relative to `start`, up to which the string field of `max` bytes at `start` is
/// read: its first NUL; a field without NUL is read up to the absolute index `start + max`
/// counted from `start`, that is up to `2 * start + max`.
pub open spec fn string_field_len(raw: Seq<u8>, start: int, max: int) -> int {
    nul_or(raw.subrange(start, start + max), start + max)
}

/// The text of the string field of `max` bytes at `start` of a discovery acknowledge.
pub open spec fn discovery_string(raw: Seq<u8>, start: int, max: int) -> Seq<char> {
    utf8_lossy(raw.subrange(start, start + string_field_len(raw, start, max)))
}

/// The string field of `max` bytes at `start`, when `raw` holds it, is read within `raw`.
pub open spec fn string_field_in_bounds(raw: Seq<u8>, start: int, max: int) -> bool {
    raw.len() >= start + max ==> start + string_field_len(raw, start, max) <= raw.len()
}

/// Each string field of a discovery acknowledge is read within `raw`.
pub open spec fn discovery_strings_in_bounds(raw: Seq<u8>) -> bool {
    &&& string_field_in_bounds(raw, 72, 32)
    &&& string_field_in_bounds(raw, 104, 32)
    &&& string_field_in_bounds(raw, 136, 32)
    &&& string_field_in_bounds(raw, 168, 48)
    &&& string_field_in_bounds(raw, 216, 16)
    &&& string_field_in_bounds(raw, 232, 16)
}

/// `d` holds the fields of the discovery acknowledge data `raw`.
pub open spec fn discovery_matches(d: Discovery, raw: Seq<u8>) -> bool {
    &&& d.gige_version == Version {
        major: be16(raw.subrange(0, 2)) as u64,
        minor: be16(raw.subrange(2, 4)) as u64,
        patch: 0,
    }
    &&& d.device_mode == DeviceMode(be32(raw.subrange(4, 8)))
    &&& d.mac_addr@ == raw.subrange(10, 16)
    &&& d.nic_capability == NicCapability(be32(raw.subrange(16, 20)))
    &&& d.nic_configuration == NicConfiguration(be32(raw.subrange(20, 24)))
    &&& d.ip@ == raw.subrange(36, 40)
    &&& d.subnet_mask@ == raw.subrange(52, 56)
    &&& d.default_gateway@ == raw.subrange(68, 72)
    &&& d.manufacturer_name@ == discovery_string(raw, 72, 32)
    &&& d.model_name@ == discovery_string(raw, 104, 32)
    &&& d.device_version@ == discovery_string(raw, 136, 32)
    &&& d.manufacturer_specific_info@ == discovery_string(raw, 168, 48)
    &&& d.serial_number@ == discovery_string(raw, 216, 16)
    &&& d.user_defined_name@ == discovery_string(raw, 232, 16)
}

/// Maps a cursor error into a protocol error.
fn io_err<T>(r: Result<T, IoError>) -> (o: Result<T, Error>)
    ensures
        match r {
            Ok(v) => o == Ok::<T, Error>(v),
            Err(e) => o == Err::<T, Error>(Error::Io(e)),
        },
{
    match r {
        Ok(v) => Ok(v),
        Err(e) => Err(Error::Io(e)),
    }
}

/// Data of a `Discovery` acknowledge. The IP addresses are held as their four octets.
#[derive(Clone, Debug, PartialEq, Eq)]
pub struct Discovery {
    pub gige_version: Version,
    pub device_mode: DeviceMode,
    pub mac_addr: [u8; 6],
    pub nic_capability: NicCapability,
    pub nic_configuration: NicConfiguration,
    pub ip: [u8; 4],
    pub subnet_mask: [u8; 4],
    pub default_gateway: [u8; 4],
    pub manufacturer_name: String,
    pub model_name: String,
    pub device_version: String,
    pub manufacturer_specific_info: String,
    pub serial_number: String,
    pub user_defined_name: String,
}

impl Discovery {
    /// Reads the string field of `maximum_string_len` bytes at the cursor and moves past it.
    fn read_string(cursor: &mut Cursor, maximum_string_len: usize) -> (r: Result<String, Error>)
        requires
            old(cursor).pos() + maximum_string_len <= usize::MAX,
            string_field_in_bounds(old(cursor).data(), old(cursor).pos(), maximum_string_len as int),
        ensures
            final(cursor).data() == old(cursor).data(),
            old(cursor).data().len() < old(cursor).pos() + maximum_string_len ==> r matches Err(
                Error::InvalidPacket(_),
            ),
            old(cursor).data().len() >= old(cursor).pos() + maximum_string_len ==> (r matches Ok(s)
                && s@ == discovery_string(
                old(cursor).data(),
                old(cursor).pos(),
                maximum_string_len as int,
            ) && final(cursor).pos() == old(cursor).pos() + maximum_string_len),
    {
        let str_start = cursor.position();
        let str_end = maximum_string_len + str_start;
        let inner = cursor.get_ref();
        if inner.len() < str_end {
            return Err(Error::InvalidPacket("size of received discovery ack is too small"));
        }
        let ghost field = inner@.subrange(str_start as int, str_end as int);
        let mut i = str_start;
        while i < str_end && inner[i] != 0
            invariant
                str_start <= i <= str_end,
                str_end <= inner@.len(),
                field == inner@.subrange(str_start as int, str_end as int),
                forall|j: int| 0 <= j < i - str_start ==> field[j] != 0,
            decreases str_end - i,
        {
            i = i + 1;
        }
        let len = if i < str_end {
            i - str_start
        } else {
            str_end
        };
        proof {
            let fallback = str_end as int;
            if i < str_end {
                let k = (i - str_start) as int;
                assert(is_first_nul(field, k));
                let c = choose|c: int| is_first_nul(field, c);
                if c < k {
                    assert(field[c] != 0);
                }
                if k < c {
                    assert(field[k] != 0);
                }
                assert(nul_or(field, fallback) == k);
            } else {
                assert forall|c: int| !is_first_nul(field, c) by {
                    if 0 <= c < field.len() {
                        assert(field[c] != 0);
                    }
                }
                assert(nul_or(field, fallback) == fallback);
            }
        }
        let s = from_utf8_lossy(vstd::slice::slice_subrange(inner, str_start, str_start + len));
        io_err(cursor.seek_forward(maximum_string_len))?;
        Ok(s)
    }
}

/// Whether the string field of `max` bytes at `start`, when `raw` holds it, is read within
/// `raw`.
fn string_field_fits(raw: &[u8], start: usize, max: usize) -> (r: bool)
    requires
        start + max + start + max <= usize::MAX,
    ensures
        r == string_field_in_bounds(raw@, start as int, max as int),
{
    if raw.len() < start + max {
        return true;
    }
    match first_nul(vstd::slice::slice_subrange(raw, start, start + max)) {
        Some(_) => true,
        None => start + start + max <= raw.len(),
    }
}

impl Discovery {
    /// Whether every string field of the discovery acknowledge data `raw` is read within it.
    pub fn strings_in_bounds(raw: &[u8]) -> (r: bool)
        ensures
            r == discovery_strings_in_bounds(raw@),
    {
        string_field_fits(raw, 72, 32) && string_field_fits(raw, 104, 32) && string_field_fits(
            raw,
            136,
            32,
        ) && string_field_fits(raw, 168, 48) && string_field_fits(raw, 216, 16)
            && string_field_fits(raw, 232, 16)
    }
}

impl<'a> ParseAckData<'a> for Discovery {
    open spec fn parse_requires(raw: Seq<u8>, header: Header) -> bool {
        header.spec_ack_kind() == AckKind::Discovery ==> discovery_strings_in_bounds(raw)
    }

    /// Besides the kind, the fixed fields need 72 bytes (`Io` error), the strings 248 bytes
    /// (`InvalidPacket`).
    open spec fn parse_spec(raw: Seq<u8>, header: Header, r: Result<Self, Error>) -> bool {
        if header.spec_ack_kind() != AckKind::Discovery {
            r matches Err(Error::InvalidPacket(_))
        } else if raw.len() < 72 {
            r == Err::<Self, Error>(eof_error())
        } else if raw.len() < 248 {
            r matches Err(Error::InvalidPacket(_))
        } else {
            r matches Ok(d) && discovery_matches(d, raw)
        }
    }

    fn parse(raw_data: &'a [u8], header: &Header) -> (r: Result<Self, Error>) {
        if header.ack_kind != AckKind::Discovery {
            return Err(Error::InvalidPacket("invalid ack kind: expected `Discovery`"));
        }
        let ghost raw = raw_data@;
        let mut cursor = Cursor::new(raw_data);
        let version_major = io_err(cursor.read_be16())?;
        let version_minor = io_err(cursor.read_be16())?;
        let gige_version = Version::new(version_major as u64, version_minor as u64, 0);
        let device_mode = DeviceMode::from_raw(io_err(cursor.read_be32())?);
        io_err(cursor.seek_forward(2))?;
        let mac = io_err(cursor.read_slice(6))?;
        let mac_addr = [mac[0], mac[1], mac[2], mac[3], mac[4], mac[5]];
        let nic_capability = NicCapability::from_raw(io_err(cursor.read_be32())?);
        let nic_configuration = NicConfiguration::from_raw(io_err(cursor.read_be32())?);
        io_err(cursor.seek_forward(12))?;
        let ip_bytes = io_err(cursor.read_slice(4))?;
        let ip = [ip_bytes[0], ip_bytes[1], ip_bytes[2], ip_bytes[3]];
        io_err(cursor.seek_forward(12))?;
        let mask_bytes = io_err(cursor.read_slice(4))?;
        let subnet_mask = [mask_bytes[0], mask_bytes[1], mask_bytes[2], mask_bytes[3]];
        io_err(cursor.seek_forward(12))?;
        let gateway_bytes = io_err(cursor.read_slice(4))?;
        let default_gateway = [gateway_bytes[0], gateway_bytes[1], gateway_bytes[2], gateway_bytes[3]];
        assert(mac_addr@ =~= raw.subrange(10, 16));
        assert(ip@ =~= raw.subrange(36, 40));
        assert(subnet_mask@ =~= raw.subrange(52, 56));
        assert(default_gateway@ =~= raw.subrange(68, 72));
        let manufacturer_name = Self::read_string(&mut cursor, 32)?;
        let model_name = Self::read_string(&mut cursor, 32)?;
        let device_version = Self::read_string(&mut cursor, 32)?;
        let manufacturer_specific_info = Self::read_string(&mut cursor, 48)?;
        let serial_number = Self::read_string(&mut cursor, 16)?;
        let user_defined_name = Self::read_string(&mut cursor, 16)?;
        Ok(Discovery {
            gige_version,
            device_mode,
            mac_addr,
            nic_capability,
            nic_configuration,
            ip,
            subnet_mask,
            default_gateway,
            manufacturer_name,
            model_name,
            device_version,
            manufacturer_specific_info,
            serial_number,
            user_defined_name,
        })
    }
}

/// Data of a `ReadReg` acknowledge: the number of entries and the register values.
#[derive(Clone, Debug, PartialEq, Eq)]
pub struct ReadReg<'a> {
    entry_num: u16,
    reg_data: &'a [u8],
}

impl<'a> ReadReg<'a> {
    /// The number of entries.
    pub closed spec fn spec_entry_num(&self) -> u16 {
        self.entry_num
    }

    /// The register values.
    pub closed spec fn spec_reg_data(&self) -> Seq<u8> {
        self.reg_data@
    }

    /// The number of entries.
    pub fn entry_num(self) -> (r: u16)
        ensures
            r == self.spec_entry_num(),
    {
        self.entry_num
    }

    /// An iterator over the register values, from the first entry on.
    pub fn iter(&self) -> (it: ReadRegIter<'a>)
        ensures
            it.spec_entry_num() == self.spec_entry_num(),
            it.spec_current_entry() == 0,
            it.spec_reg_data() == self.spec_reg_data(),
    {
        ReadRegIter { entry_num: self.entry_num, current_entry: 0, reg_data: self.reg_data }
    }

    /// An iterator over the register values, from the first entry on.
    pub fn into_iter(self) -> (it: ReadRegIter<'a>)
        ensures
            it.spec_entry_num() == self.spec_entry_num(),
            it.spec_current_entry() == 0,
            it.spec_reg_data() == self.spec_reg_data(),
    {
        ReadRegIter { entry_num: self.entry_num, current_entry: 0, reg_data: self.reg_data }
    }
}

impl<'a> ParseAckData<'a> for ReadReg<'a> {
    open spec fn parse_requires(raw: Seq<u8>, header: Header) -> bool {
        true
    }

    /// The entry count is a quarter of the length field, which must be a multiple of 4.
    open spec fn parse_spec(raw: Seq<u8>, header: Header, r: Result<Self, Error>) -> bool {
        if header.spec_ack_kind() != AckKind::ReadReg {
            r matches Err(Error::InvalidPacket(_))
        } else if header.spec_length() % 4 != 0 {
            r matches Err(Error::InvalidPacket(_))
        } else {
            r matches Ok(a) && a.spec_entry_num() == header.spec_length() / 4 && a.spec_reg_data()
                == raw
        }
    }

    fn parse(raw_data: &'a [u8], header: &Header) -> (r: Result<Self, Error>) {
        if header.ack_kind != AckKind::ReadReg {
            return Err(Error::InvalidPacket("invalid ack kind: expected `ReadReg`"));
        }
        let length = header.length;
        if length % 4 != 0 {
            return Err(Error::InvalidPacket("data of `ReadReg` ack must be a multiple of 4"));
        }
        let entry_num = length / 4;
        Ok(ReadReg { entry_num, reg_data: raw_data })
    }
}

/// Iterator over the register values of a `ReadReg` acknowledge.
///
/// It yields the entries `0..=entry_num`, one more than the count, so the last call reads the
/// four bytes after the last entry.
#[derive(Clone, Debug, PartialEq, Eq)]
pub struct ReadRegIter<'a> {
    entry_num: u16,
    current_entry: u16,
    reg_data: &'a [u8],
}

impl<'a> ReadRegIter<'a> {
    /// The number of entries.
    pub closed spec fn spec_entry_num(&self) -> u16 {
        self.entry_num
    }

    /// The index of the next entry.
    pub closed spec fn spec_current_entry(&self) -> u16 {
        self.current_entry
    }

    /// The register values.
    pub closed spec fn spec_reg_data(&self) -> Seq<u8> {
        self.reg_data@
    }

    /// The next call stays within the data and the entry counter does not overflow.
    pub open spec fn next_in_bounds(&self) -> bool {
        self.spec_current_entry() <= self.spec_entry_num() ==> {
            &&& (self.spec_current_entry() + 1) * 4 <= self.spec_reg_data().len()
            &&& self.spec_current_entry() < u16::MAX
        }
    }

    /// Tells whether [`ReadRegIter::next`] may be called: the next entry lies within the data.
    pub fn next_is_in_bounds(&self) -> (r: bool)
        ensures
            r == self.next_in_bounds(),
    {
        self.current_entry > self.entry_num || (self.current_entry < u16::MAX && (
        self.current_entry as usize + 1) * 4 <= self.reg_data.len())
    }

    /// The register value of the next entry, if the iterator has not passed `entry_num`.
    pub fn next(&mut self) -> (r: Option<[u8; 4]>)
        requires
            old(self).next_in_bounds(),
        ensures
            final(self).spec_entry_num() == old(self).spec_entry_num(),
            final(self).spec_reg_data() == old(self).spec_reg_data(),
            old(self).spec_current_entry() > old(self).spec_entry_num() ==> r is None && final(self).spec_current_entry() == old(self).spec_current_entry(),
            old(self).spec_current_entry() <= old(self).spec_entry_num() ==> (r matches Some(v)
                && v@ == old(self).spec_reg_data().subrange(
                old(self).spec_current_entry() * 4,
                old(self).spec_current_entry() * 4 + 4,
            ) && final(self).spec_current_entry() == old(self).spec_current_entry() + 1),
    {
        if self.current_entry > self.entry_num {
            None
        } else {
            let i = self.current_entry as usize * 4;
            let d = self.reg_data;
            let item = [d[i], d[i + 1], d[i + 2], d[i + 3]];
            assert(item@ =~= d@.subrange(i as int, i + 4));
            self.current_entry = self.current_entry + 1;
            Some(item)
        }
    }
}

/// Data of a `WriteReg` acknowledge: the number of entries written.
#[derive(Clone, Debug, PartialEq, Eq)]
pub struct WriteReg {
    entry_num: u16,
}

impl WriteReg {
    /// The number of entries written.
    pub closed spec fn spec_entry_num(&self) -> u16 {
        self.entry_num
    }

    /// The number of entries written.
    pub fn entry_num(self) -> (r: u16)
        ensures
            r == self.spec_entry_num(),
    {
        self.entry_num
    }
}

impl<'a> ParseAckData<'a> for WriteReg {
    open spec fn parse_requires(raw: Seq<u8>, header: Header) -> bool {
        header.spec_ack_kind() == AckKind::WriteReg ==> raw.len() >= 4
    }

    /// The entry count is the big endian value of bytes 2 and 3.
    open spec fn parse_spec(raw: Seq<u8>, header: Header, r: Result<Self, Error>) -> bool {
        if header.spec_ack_kind() != AckKind::WriteReg {
            r matches Err(Error::InvalidPacket(_))
        } else {
            r matches Ok(a) && a.spec_entry_num() == be16(raw.subrange(2, 4))
        }
    }

    fn parse(raw_data: &'a [u8], header: &Header) -> (r: Result<Self, Error>) {
        if header.ack_kind != AckKind::WriteReg {
            return Err(Error::InvalidPacket("invalid ack kind: expected `WriteReg`"));
        }
        let entry_num = crate::bytes::get_be16(raw_data, 2);
        Ok(WriteReg { entry_num })
    }
}

/// Data of a `ReadMem` acknowledge: the address and the bytes read.
#[derive(Clone, Debug, PartialEq, Eq)]
pub struct ReadMem<'a> {
    address: u32,
    data: &'a [u8],
}

impl<'a> ReadMem<'a> {
    /// The address.
    pub closed spec fn spec_address(&self) -> u32 {
        self.address
    }

    /// The bytes read.
    pub closed spec fn spec_data(&self) -> Seq<u8> {
        self.data@
    }

    /// The address.
    pub fn address(&self) -> (r: u32)
        ensures
            r == self.spec_address(),
    {
        self.address
    }

    /// The bytes read.
    pub fn data(&self) -> (r: &'a [u8])
        ensures
            r@ == self.spec_data(),
    {
        self.data
    }
}

impl<'a> ParseAckData<'a> for ReadMem<'a> {
    /// The length field counts the address, and the data holds as many bytes as it states.
    open spec fn parse_requires(raw: Seq<u8>, header: Header) -> bool {
        header.spec_ack_kind() == AckKind::ReadMem && raw.len() >= 4 ==> 4 <= header.spec_length()
            <= raw.len()
    }

    /// The address is the first four bytes, the data the `length - 4` bytes after them.
    open spec fn parse_spec(raw: Seq<u8>, header: Header, r: Result<Self, Error>) -> bool {
        if header.spec_ack_kind() != AckKind::ReadMem {
            r matches Err(Error::InvalidPacket(_))
        } else if raw.len() < 4 {
            r == Err::<Self, Error>(eof_error())
        } else {
            r matches Ok(a) && a.spec_address() == be32(raw.subrange(0, 4)) && a.spec_data()
                == raw.subrange(4, header.spec_length() as int)
        }
    }

    fn parse(raw_data: &'a [u8], header: &Header) -> (r: Result<Self, Error>) {
        if header.ack_kind != AckKind::ReadMem {
            return Err(Error::InvalidPacket("invalid ack kind: expected `ReadMem`"));
        }
        if raw_data.len() < 4 {
            return Err(Error::Io(IoError::UnexpectedEof));
        }
        let address = crate::bytes::get_be32(raw_data, 0);
        let data_length = header.length as usize - 4;
        let data = vstd::slice::slice_subrange(raw_data, 4, 4 + data_length);
        Ok(ReadMem { address, data })
    }
}

/// Data of a `WriteMem` acknowledge.
#[derive(Clone, Copy, Debug, PartialEq, Eq, Structural)]
pub struct WriteMem {
    address: u32,
    num_bytes: u16,
}

impl WriteMem {
    /// The address.
    pub closed spec fn spec_address(&self) -> u32 {
        self.address
    }

    /// The number of bytes written.
    pub closed spec fn spec_num_bytes(&self) -> u16 {
        self.num_bytes
    }

    /// The address.
    pub fn address(self) -> (r: u32)
        ensures
            r == self.spec_address(),
    {
        self.address
    }

    /// The number of bytes written.
    pub fn num_bytes(self) -> (r: u16)
        ensures
            r == self.spec_num_bytes(),
    {
        self.num_bytes
    }
}

impl<'a> ParseAckData<'a> for WriteMem {
    open spec fn parse_requires(raw: Seq<u8>, header: Header) -> bool {
        true
    }

    /// A big endian address in four bytes, then a big endian byte count in two.
    open spec fn parse_spec(raw: Seq<u8>, header: Header, r: Result<Self, Error>) -> bool {
        if header.spec_ack_kind() != AckKind::WriteMem {
            r matches Err(Error::InvalidPacket(_))
        } else if raw.len() < 6 {
            r == Err::<Self, Error>(eof_error())
        } else {
            r matches Ok(a) && a.spec_address() == be32(raw.subrange(0, 4)) && a.spec_num_bytes()
                == be16(raw.subrange(4, 6))
        }
    }

    fn parse(raw_data: &'a [u8], header: &Header) -> (r: Result<Self, Error>) {
        if header.ack_kind != AckKind::WriteMem {
            return Err(Error::InvalidPacket("invalid ack kind: expected `WriteMem`"));
        }
        let mut cursor = Cursor::new(raw_data);
        let address = io_err(cursor.read_be32())?;
        assert(cursor.ahead(2) =~= raw_data@.subrange(4, 6));
        let num_bytes = io_err(cursor.read_be16())?;
        Ok(WriteMem { address, num_bytes })
    }
}

/// Data of a `Pending` acknowledge: how long the host should wait for the real acknowledge.
#[derive(Clone, Copy, Debug, PartialEq, Eq, Structural)]
pub struct Pending {
    waiting_time: u16,
}

impl Pending {
    /// The waiting time in milliseconds.
    pub closed spec fn spec_waiting_time(&self) -> u16 {
        self.waiting_time
    }

    /// The waiting time, in milliseconds.
    pub fn waiting_time(self) -> (r: u64)
        ensures
            r == self.spec_waiting_time(),
    {
        self.waiting_time as u64
    }
}

impl<'a> ParseAckData<'a> for Pending {
    open spec fn parse_requires(raw: Seq<u8>, header: Header) -> bool {
        header.spec_ack_kind() == AckKind::Pending ==> raw.len() >= 4
    }

    /// The waiting time is the big endian value of bytes 2 and 3.
    open spec fn parse_spec(raw: Seq<u8>, header: Header, r: Result<Self, Error>) -> bool {
        if header.spec_ack_kind() != AckKind::Pending {
            r matches Err(Error::InvalidPacket(_))
        } else {
            r matches Ok(a) && a.spec_waiting_time() == be16(raw.subrange(2, 4))
        }
    }

    fn parse(raw_data: &'a [u8], header: &Header) -> (r: Result<Self, Error>) {
        if header.ack_kind != AckKind::Pending {
            return Err(Error::InvalidPacket("invalid ack kind: expected `Pending`"));
        }
        let waiting_time = crate::bytes::get_be16(raw_data, 2);
        Ok(Pending { waiting_time })
    }
}

} // verus!
