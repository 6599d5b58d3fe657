//! `GVCP` command packets sent from the host to a `GigE` device.

use vstd::prelude::*;

use crate::bytes::{be16_bytes, be32_bytes, be64_bytes, put_be16, put_be32, put_be64};

use super::Error;

verus! {

/// The magic byte that starts every `GVCP` command header.
pub const GVCP_MAGIC: u8 = 0x42;

/// Concatenation of the big endian bytes of each value.
pub open spec fn be32_concat(values: Seq<u32>) -> Seq<u8>
    decreases values.len(),
{
    if values.len() == 0 {
        Seq::empty()
    } else {
        be32_concat(values.drop_last()) + be32_bytes(values.last())
    }
}

/// Bytes of a command header.
pub open spec fn header_bytes(flag: u8, kind: CommandKind, length: u16, request_id: u16) -> Seq<
    u8,
> {
    seq![GVCP_MAGIC, flag] + be16_bytes(kind_code(kind)) + be16_bytes(length) + be16_bytes(
        request_id,
    )
}

/// A complete command packet: a header followed by the command data.
#[derive(Clone, Debug, PartialEq, Eq)]
pub struct CommandPacket<T> {
    header: CommandHeader,
    command_data: T,
}

impl<T> CommandPacket<T> {
    /// The header of the packet.
    pub closed spec fn spec_header(&self) -> CommandHeader {
        self.header
    }

    /// The command data of the packet.
    pub closed spec fn spec_command_data(&self) -> T {
        self.command_data
    }
}

impl<T: CommandData> CommandPacket<T> {
    /// Wraps `command_data` in a packet whose header describes it.
    pub fn new(command_data: T, request_id: u16) -> (p: Self)
        ensures
            p.spec_header().spec_flag() == command_data.spec_flag(),
            p.spec_header().spec_kind() == command_data.spec_kind(),
            p.spec_header().spec_length() == command_data.spec_length(),
            p.spec_header().spec_request_id() == request_id,
            p.spec_command_data() == command_data,
    {
        let header = CommandHeader::new(&command_data, request_id);
        CommandPacket { header, command_data }
    }

    /// Appends the header and then the command data.
    pub fn serialize(&self, buf: &mut Vec<u8>)
        ensures
            final(buf)@ == old(buf)@ + self.spec_header().spec_bytes()
                + self.spec_command_data().spec_data_bytes(),
    {
        self.header.serialize(buf);
        self.command_data.serialize(buf);
    }

    /// Length of the packet as the header states it.
    pub fn length(&self) -> (r: u16)
        ensures
            r == self.spec_header().spec_length(),
    {
        self.header.length
    }
}

/// Header of a `GVCP` command.
#[derive(Clone, Copy, Debug, PartialEq, Eq, Structural)]
pub struct CommandHeader {
    flag: CommandFlag,
    command_kind: CommandKind,
    length: u16,
    request_id: u16,
}

impl CommandHeader {
    /// The flag byte.
    pub closed spec fn spec_flag(&self) -> CommandFlag {
        self.flag
    }

    /// The command kind.
    pub closed spec fn spec_kind(&self) -> CommandKind {
        self.command_kind
    }

    /// The length field.
    pub closed spec fn spec_length(&self) -> u16 {
        self.length
    }

    /// The request id.
    pub closed spec fn spec_request_id(&self) -> u16 {
        self.request_id
    }

    /// The serialized header.
    pub open spec fn spec_bytes(&self) -> Seq<u8> {
        header_bytes(self.spec_flag().0, self.spec_kind(), self.spec_length(), self.spec_request_id())
    }

    /// Header that describes `command_data`.
    pub fn new<T: CommandData>(command_data: &T, request_id: u16) -> (h: Self)
        ensures
            h.spec_flag() == command_data.spec_flag(),
            h.spec_kind() == command_data.spec_kind(),
            h.spec_length() == command_data.spec_length(),
            h.spec_request_id() == request_id,
    {
        let flag = command_data.flag();
        let command_kind = command_data.kind();
        let length = command_data.length();
        CommandHeader { flag, command_kind, length, request_id }
    }

    /// Appends the magic byte, the flag, the kind, the length and the request id.
    pub fn serialize(&self, buf: &mut Vec<u8>)
        ensures
            final(buf)@ == old(buf)@ + self.spec_bytes(),
    {
        buf.push(GVCP_MAGIC);
        self.flag.serialize(buf);
        self.command_kind.serialize(buf);
        put_be16(buf, self.length);
        put_be16(buf, self.request_id);
        assert(buf@ =~= old(buf)@ + self.spec_bytes());
    }
}

/// Kind of a `GVCP` command.
#[derive(Clone, Copy, Debug, PartialEq, Eq, Structural)]
pub enum CommandKind {
    Discovery,
    ReadReg,
    WriteReg,
    ReadMem,
    WriteMem,
    PacketResend,
}

/// The command code of each kind.
pub open spec fn kind_code(kind: CommandKind) -> u16 {
    match kind {
        CommandKind::Discovery => 0x0002,
        CommandKind::ReadReg => 0x0080,
        CommandKind::WriteReg => 0x0082,
        CommandKind::ReadMem => 0x0084,
        CommandKind::WriteMem => 0x0086,
        CommandKind::PacketResend => 0x0040,
    }
}

impl CommandKind {
    /// Appends the big endian command code.
    pub fn serialize(self, buf: &mut Vec<u8>)
        ensures
            final(buf)@ == old(buf)@ + be16_bytes(kind_code(self)),
    {
        let value: u16 = match self {
            CommandKind::Discovery => 0x0002,
            CommandKind::ReadReg => 0x0080,
            CommandKind::WriteReg => 0x0082,
            CommandKind::ReadMem => 0x0084,
            CommandKind::WriteMem => 0x0086,
            CommandKind::PacketResend => 0x0040,
        };
        put_be16(buf, value);
    }
}

/// Data of a command, which a [`CommandPacket`] wraps.
pub trait CommandData: Sized {
    /// The flag of the command.
    spec fn spec_flag(&self) -> CommandFlag;

    /// The kind of the command.
    spec fn spec_kind(&self) -> CommandKind;

    /// The length field of the command.
    spec fn spec_length(&self) -> u16;

    /// The serialized command data.
    spec fn spec_data_bytes(&self) -> Seq<u8>;

    /// Flag of the command.
    fn flag(&self) -> (r: CommandFlag)
        ensures
            r == self.spec_flag(),
    ;

    /// Kind of the command.
    fn kind(&self) -> (r: CommandKind)
        ensures
            r == self.spec_kind(),
    ;

    /// Length field of the command.
    fn length(&self) -> (r: u16)
        ensures
            r == self.spec_length(),
    ;

    /// Appends the command data.
    fn serialize(&self, buf: &mut Vec<u8>)
        ensures
            final(buf)@ == old(buf)@ + self.spec_data_bytes(),
    ;

    /// Wraps the command in a packet with `request_id`.
    fn finalize(self, request_id: u16) -> (p: CommandPacket<Self>)
        ensures
            p.spec_header().spec_flag() == self.spec_flag(),
            p.spec_header().spec_kind() == self.spec_kind(),
            p.spec_header().spec_length() == self.spec_length(),
            p.spec_header().spec_request_id() == request_id,
            p.spec_command_data() == self,
    {
        let flag = self.flag();
        let command_kind = self.kind();
        let length = self.length();
        CommandPacket {
            header: CommandHeader { flag, command_kind, length, request_id },
            command_data: self,
        }
    }
}

/// `Discovery` command.
#[derive(Clone, Copy, Debug, PartialEq, Eq, Structural)]
pub struct Discovery {
    bloadcast: bool,
}

impl Discovery {
    /// Whether the device may answer by broadcast.
    pub closed spec fn spec_bloadcast(&self) -> bool {
        self.bloadcast
    }

    /// A discovery command without the broadcast bit.
    pub fn new() -> (d: Self)
        ensures
            !d.spec_bloadcast(),
    {
        Discovery { bloadcast: false }
    }

    /// Sets whether the device may answer by broadcast.
    pub fn set_bloadcast(&mut self, is_allow: bool)
        ensures
            final(self).spec_bloadcast() == is_allow,
    {
        self.bloadcast = is_allow;
    }
}

impl CommandData for Discovery {
    open spec fn spec_flag(&self) -> CommandFlag {
        if self.spec_bloadcast() {
            CommandFlag(0x88)
        } else {
            CommandFlag(0x80)
        }
    }

    open spec fn spec_kind(&self) -> CommandKind {
        CommandKind::Discovery
    }

    open spec fn spec_length(&self) -> u16 {
        0
    }

    open spec fn spec_data_bytes(&self) -> Seq<u8> {
        Seq::empty()
    }

    fn flag(&self) -> (r: CommandFlag) {
        let flag = CommandFlag::new().need_ack();
        if self.bloadcast {
            assert(0x80u8 | (1u8 << 3u8) == 0x88u8) by (bit_vector);
            flag.set_bit(3)
        } else {
            flag
        }
    }

    fn kind(&self) -> (r: CommandKind) {
        CommandKind::Discovery
    }

    fn length(&self) -> (r: u16) {
        0
    }

    fn serialize(&self, buf: &mut Vec<u8>) {
        assert(buf@ =~= old(buf)@ + Seq::<u8>::empty());
    }
}

/// The largest number of entries of a `ReadReg` command.
pub const READ_REG_MAXIMUM_ENTRY_NUMBER: usize = 135;

/// The largest number of entries of a `WriteReg` command.
pub const WRITE_REG_MAXIMUM_ENTRY_NUMBER: usize = 67;

/// The largest length of a `ReadMem` command.
pub const READ_MEM_MAXIMUM_READ_LENGTH: u16 = 536;

/// The largest data length of a `WriteMem` command.
pub const WRITE_MEM_MAXIMUM_DATA_LEN: usize = 536;

/// `ReadReg` command: reads a list of 4-byte registers.
#[derive(Debug, PartialEq, Eq)]
pub struct ReadReg {
    addresses: Vec<u32>,
}

impl Clone for ReadReg {
    fn clone(&self) -> (r: Self)
        ensures
            r.spec_addresses() == self.spec_addresses(),
    {
        proof {
            use_type_invariant(self);
        }
        let addresses = self.addresses.clone();
        assert(addresses@ =~= self.addresses@);
        ReadReg { addresses }
    }
}

impl ReadReg {
    /// The addresses in the command.
    pub closed spec fn spec_addresses(&self) -> Seq<u32> {
        self.addresses@
    }

    /// At most [`READ_REG_MAXIMUM_ENTRY_NUMBER`] addresses.
    #[verifier::type_invariant]
    closed spec fn inv(&self) -> bool {
        self.addresses@.len() <= READ_REG_MAXIMUM_ENTRY_NUMBER
    }

    /// An empty command.
    pub fn new() -> (r: Self)
        ensures
            r.spec_addresses() == Seq::<u32>::empty(),
    {
        ReadReg { addresses: Vec::new() }
    }

    /// Adds an address; fails when the command is full or the address is not a multiple of 4.
    pub fn add_entry(&mut self, address: u32) -> (r: Result<(), Error>)
        ensures
            old(self).spec_addresses().len() >= READ_REG_MAXIMUM_ENTRY_NUMBER ==> (r matches Err(
                Error::InvalidPacket(_),
            ) && final(self).spec_addresses() == old(self).spec_addresses()),
            old(self).spec_addresses().len() < READ_REG_MAXIMUM_ENTRY_NUMBER && address % 4 != 0
                ==> (r matches Err(Error::InvalidPacket(_)) && final(self).spec_addresses() == old(self).spec_addresses()),
            old(self).spec_addresses().len() < READ_REG_MAXIMUM_ENTRY_NUMBER && address % 4 == 0
                ==> (r is Ok && final(self).spec_addresses() == old(self).spec_addresses().push(
                address,
            )),
            final(self).spec_addresses().len() <= READ_REG_MAXIMUM_ENTRY_NUMBER,
    {
        proof {
            use_type_invariant(&*self);
        }
        if self.addresses.len() >= READ_REG_MAXIMUM_ENTRY_NUMBER {
            Err(Error::InvalidPacket("a number of entry of `ReadReg` must be smaller or equal than 135"))
        } else if address % 4 != 0 {
            Err(Error::InvalidPacket("an address of `ReadReg` must be a multiple of 4"))
        } else {
            let mut addresses = Vec::new();
            std::mem::swap(&mut addresses, &mut self.addresses);
            addresses.push(address);
            self.addresses = addresses;
            Ok(())
        }
    }
}

impl CommandData for ReadReg {
    open spec fn spec_flag(&self) -> CommandFlag {
        CommandFlag(0x80)
    }

    open spec fn spec_kind(&self) -> CommandKind {
        CommandKind::ReadReg
    }

    open spec fn spec_length(&self) -> u16 {
        (self.spec_addresses().len() * 4) as u16
    }

    open spec fn spec_data_bytes(&self) -> Seq<u8> {
        be32_concat(self.spec_addresses())
    }

    fn flag(&self) -> (r: CommandFlag) {
        CommandFlag::new().need_ack()
    }

    fn kind(&self) -> (r: CommandKind) {
        CommandKind::ReadReg
    }

    fn length(&self) -> (r: u16) {
        proof {
            use_type_invariant(self);
        }
        (self.addresses.len() * 4) as u16
    }

    fn serialize(&self, buf: &mut Vec<u8>) {
        let mut i: usize = 0;
        while i < self.addresses.len()
            invariant
                i <= self.addresses@.len(),
                buf@ == old(buf)@ + be32_concat(self.addresses@.subrange(0, i as int)),
            decreases self.addresses@.len() - i,
        {
            put_be32(buf, self.addresses[i]);
            assert(self.addresses@.subrange(0, i + 1).drop_last() =~= self.addresses@.subrange(
                0,
                i as int,
            ));
            i = i + 1;
        }
        assert(self.addresses@.subrange(0, i as int) =~= self.addresses@);
    }
}

/// An entry of a `WriteReg` command.
#[derive(Clone, Copy, Debug, PartialEq, Eq, Structural)]
pub struct WriteRegEntry {
    address: u32,
    data: u32,
}

/// Concatenation of the serialized entries.
pub open spec fn entries_bytes(entries: Seq<WriteRegEntry>) -> Seq<u8>
    decreases entries.len(),
{
    if entries.len() == 0 {
        Seq::empty()
    } else {
        entries_bytes(entries.drop_last()) + entries.last().spec_bytes()
    }
}

impl WriteRegEntry {
    /// The register address.
    pub closed spec fn spec_address(&self) -> u32 {
        self.address
    }

    /// The value to write.
    pub closed spec fn spec_data(&self) -> u32 {
        self.data
    }

    /// The serialized entry.
    pub open spec fn spec_bytes(&self) -> Seq<u8> {
        be32_bytes(self.spec_address()) + be32_bytes(self.spec_data())
    }

    /// An entry; fails when the address is not a multiple of 4.
    pub fn new(address: u32, data: u32) -> (r: Result<Self, Error>)
        ensures
            address % 4 == 0 ==> (r matches Ok(e) && e.spec_address() == address && e.spec_data()
                == data),
            address % 4 != 0 ==> r matches Err(Error::InvalidPacket(_)),
    {
        if address % 4 == 0 {
            Ok(WriteRegEntry { address, data })
        } else {
            Err(Error::InvalidPacket("an address of `WriteReg` must be a multiple of 4"))
        }
    }

    fn entry_length() -> (r: u16)
        ensures
            r == 64,
    {
        64
    }

    fn serialize(&self, buf: &mut Vec<u8>)
        ensures
            final(buf)@ == old(buf)@ + self.spec_bytes(),
    {
        put_be32(buf, self.address);
        put_be32(buf, self.data);
        assert(buf@ =~= old(buf)@ + self.spec_bytes());
    }
}

/// `WriteReg` command: writes a list of 4-byte registers.
#[derive(Debug, PartialEq, Eq)]
pub struct WriteReg {
    entries: Vec<WriteRegEntry>,
    need_ack: bool,
}

impl Clone for WriteReg {
    fn clone(&self) -> (r: Self)
        ensures
            r.spec_entries() == self.spec_entries(),
            r.spec_need_ack() == self.spec_need_ack(),
    {
        proof {
            use_type_invariant(self);
        }
        let entries = self.entries.clone();
        assert(entries@ =~= self.entries@);
        WriteReg { entries, need_ack: self.need_ack }
    }
}

impl Default for WriteReg {
    fn default() -> (r: Self)
        ensures
            r.spec_entries() == Seq::<WriteRegEntry>::empty(),
            r.spec_need_ack(),
    {
        WriteReg { entries: Vec::new(), need_ack: true }
    }
}

impl WriteReg {
    /// The entries in the command.
    pub closed spec fn spec_entries(&self) -> Seq<WriteRegEntry> {
        self.entries@
    }

    /// Whether the command asks for an acknowledge.
    pub closed spec fn spec_need_ack(&self) -> bool {
        self.need_ack
    }

    /// At most [`WRITE_REG_MAXIMUM_ENTRY_NUMBER`] entries.
    #[verifier::type_invariant]
    closed spec fn inv(&self) -> bool {
        self.entries@.len() <= WRITE_REG_MAXIMUM_ENTRY_NUMBER
    }

    /// An empty command that asks for an acknowledge.
    pub fn new() -> (r: Self)
        ensures
            r.spec_entries() == Seq::<WriteRegEntry>::empty(),
            r.spec_need_ack(),
    {
        Self::default()
    }

    /// Adds an entry; fails when the command is full.
    pub fn add_entry(&mut self, entry: WriteRegEntry) -> (r: Result<(), Error>)
        ensures
            final(self).spec_need_ack() == old(self).spec_need_ack(),
            old(self).spec_entries().len() >= WRITE_REG_MAXIMUM_ENTRY_NUMBER ==> (r matches Err(
                Error::InvalidPacket(_),
            ) && final(self).spec_entries() == old(self).spec_entries()),
            old(self).spec_entries().len() < WRITE_REG_MAXIMUM_ENTRY_NUMBER ==> (r is Ok && final(self).spec_entries() == old(self).spec_entries().push(entry)),
    {
        proof {
            use_type_invariant(&*self);
        }
        if self.entries.len() >= WRITE_REG_MAXIMUM_ENTRY_NUMBER {
            Err(Error::InvalidPacket("a number of entry of `WriteReg` must be smaller or equal than 67"))
        } else {
            let mut entries = Vec::new();
            std::mem::swap(&mut entries, &mut self.entries);
            entries.push(entry);
            self.entries = entries;
            Ok(())
        }
    }

    /// Sets whether the command asks for an acknowledge.
    pub fn set_need_ack(&mut self, need_ack: bool)
        ensures
            final(self).spec_need_ack() == need_ack,
            final(self).spec_entries() == old(self).spec_entries(),
    {
        proof {
            use_type_invariant(&*self);
        }
        self.need_ack = need_ack;
    }
}

impl CommandData for WriteReg {
    open spec fn spec_flag(&self) -> CommandFlag {
        if self.spec_need_ack() {
            CommandFlag(0x80)
        } else {
            CommandFlag(0)
        }
    }

    open spec fn spec_kind(&self) -> CommandKind {
        CommandKind::WriteReg
    }

    /// Each entry counts 64 in the length field.
    open spec fn spec_length(&self) -> u16 {
        (self.spec_entries().len() * 64) as u16
    }

    open spec fn spec_data_bytes(&self) -> Seq<u8> {
        entries_bytes(self.spec_entries())
    }

    fn flag(&self) -> (r: CommandFlag) {
        if self.need_ack {
            CommandFlag::new().need_ack()
        } else {
            CommandFlag::new()
        }
    }

    fn kind(&self) -> (r: CommandKind) {
        CommandKind::WriteReg
    }

    fn length(&self) -> (r: u16) {
        proof {
            use_type_invariant(self);
        }
        (self.entries.len() as u16) * WriteRegEntry::entry_length()
    }

    fn serialize(&self, buf: &mut Vec<u8>) {
        let mut i: usize = 0;
        while i < self.entries.len()
            invariant
                i <= self.entries@.len(),
                buf@ == old(buf)@ + entries_bytes(self.entries@.subrange(0, i as int)),
            decreases self.entries@.len() - i,
        {
            self.entries[i].serialize(buf);
            assert(self.entries@.subrange(0, i + 1).drop_last() =~= self.entries@.subrange(
                0,
                i as int,
            ));
            i = i + 1;
        }
        assert(self.entries@.subrange(0, i as int) =~= self.entries@);
    }
}

/// `ReadMem` command: reads a block of the device memory.
#[derive(Clone, Copy, Debug, PartialEq, Eq, Structural)]
pub struct ReadMem {
    address: u32,
    length: u16,
}

impl ReadMem {
    /// Start address.
    pub closed spec fn spec_address(&self) -> u32 {
        self.address
    }

    /// Number of bytes to read.
    pub closed spec fn spec_read_length(&self) -> u16 {
        self.length
    }

    /// A command; it is refused when neither the address nor the length is a multiple of 4, or
    /// when the length exceeds [`READ_MEM_MAXIMUM_READ_LENGTH`].
    pub fn new(address: u32, length: u16) -> (r: Result<Self, Error>)
        ensures
            address % 4 != 0 && length % 4 != 0 ==> r matches Err(Error::InvalidPacket(_)),
            !(address % 4 != 0 && length % 4 != 0) && length > READ_MEM_MAXIMUM_READ_LENGTH
                ==> r matches Err(Error::InvalidPacket(_)),
            !(address % 4 != 0 && length % 4 != 0) && length <= READ_MEM_MAXIMUM_READ_LENGTH
                ==> (r matches Ok(c) && c.spec_address() == address && c.spec_read_length()
                == length),
    {
        if address % 4 != 0 && length % 4 != 0 {
            Err(Error::InvalidPacket("address and length fields of `ReadMem` command must be a multiple of 4"))
        } else if length > READ_MEM_MAXIMUM_READ_LENGTH {
            Err(Error::InvalidPacket("length must be smaller or equal than 536"))
        } else {
            Ok(ReadMem { address, length })
        }
    }
}

impl CommandData for ReadMem {
    open spec fn spec_flag(&self) -> CommandFlag {
        CommandFlag(0)
    }

    open spec fn spec_kind(&self) -> CommandKind {
        CommandKind::ReadMem
    }

    open spec fn spec_length(&self) -> u16 {
        6
    }

    open spec fn spec_data_bytes(&self) -> Seq<u8> {
        be32_bytes(self.spec_address()) + be16_bytes(self.spec_read_length())
    }

    fn flag(&self) -> (r: CommandFlag) {
        CommandFlag::new()
    }

    fn kind(&self) -> (r: CommandKind) {
        CommandKind::ReadMem
    }

    fn length(&self) -> (r: u16) {
        6
    }

    fn serialize(&self, buf: &mut Vec<u8>) {
        put_be32(buf, self.address);
        put_be16(buf, self.length);
        assert(buf@ =~= old(buf)@ + self.spec_data_bytes());
    }
}

/// `WriteMem` command: writes a block of the device memory.
#[derive(Debug, PartialEq, Eq)]
pub struct WriteMem<'a> {
    address: u32,
    data: &'a [u8],
    need_ack: bool,
}

impl<'a> Clone for WriteMem<'a> {
    fn clone(&self) -> (r: Self)
        ensures
            r.spec_address() == self.spec_address(),
            r.spec_data() == self.spec_data(),
            r.spec_need_ack() == self.spec_need_ack(),
    {
        proof {
            use_type_invariant(self);
        }
        WriteMem { address: self.address, data: self.data, need_ack: self.need_ack }
    }
}

impl<'a> WriteMem<'a> {
    /// Start address.
    pub closed spec fn spec_address(&self) -> u32 {
        self.address
    }

    /// Data to write.
    pub closed spec fn spec_data(&self) -> Seq<u8> {
        self.data@
    }

    /// Whether the command asks for an acknowledge.
    pub closed spec fn spec_need_ack(&self) -> bool {
        self.need_ack
    }

    /// At most [`WRITE_MEM_MAXIMUM_DATA_LEN`] bytes.
    #[verifier::type_invariant]
    closed spec fn inv(&self) -> bool {
        self.data@.len() <= WRITE_MEM_MAXIMUM_DATA_LEN
    }

    /// A command that asks for an acknowledge; fails when the address is not a multiple of 4 or
    /// the data is longer than [`WRITE_MEM_MAXIMUM_DATA_LEN`].
    pub fn new(address: u32, data: &'a [u8]) -> (r: Result<Self, Error>)
        ensures
            address % 4 != 0 ==> r matches Err(Error::InvalidPacket(_)),
            address % 4 == 0 && data@.len() > WRITE_MEM_MAXIMUM_DATA_LEN ==> r matches Err(
                Error::InvalidPacket(_),
            ),
            address % 4 == 0 && data@.len() <= WRITE_MEM_MAXIMUM_DATA_LEN ==> (r matches Ok(c)
                && c.spec_address() == address && c.spec_data() == data@ && c.spec_need_ack()),
    {
        if address % 4 != 0 {
            Err(Error::InvalidPacket("an address of `WriteMem` command must be a multiple of 4"))
        } else if data.len() > WRITE_MEM_MAXIMUM_DATA_LEN {
            Err(Error::InvalidPacket("a data length of `WriteMem` command must be smaller or equal than 536"))
        } else {
            Ok(WriteMem { address, data, need_ack: true })
        }
    }

    /// Sets whether the command asks for an acknowledge.
    pub fn set_need_ack(&mut self, need_ack: bool)
        ensures
            final(self).spec_need_ack() == need_ack,
            final(self).spec_address() == old(self).spec_address(),
            final(self).spec_data() == old(self).spec_data(),
    {
        proof {
            use_type_invariant(&*self);
        }
        self.need_ack = need_ack;
    }
}

impl<'a> CommandData for WriteMem<'a> {
    open spec fn spec_flag(&self) -> CommandFlag {
        if self.spec_need_ack() {
            CommandFlag(0x80)
        } else {
            CommandFlag(0)
        }
    }

    open spec fn spec_kind(&self) -> CommandKind {
        CommandKind::WriteMem
    }

    open spec fn spec_length(&self) -> u16 {
        (32 + self.spec_data().len()) as u16
    }

    open spec fn spec_data_bytes(&self) -> Seq<u8> {
        be32_bytes(self.spec_address()) + self.spec_data()
    }

    fn flag(&self) -> (r: CommandFlag) {
        if self.need_ack {
            CommandFlag::new().need_ack()
        } else {
            CommandFlag::new()
        }
    }

    fn kind(&self) -> (r: CommandKind) {
        CommandKind::WriteMem
    }

    fn length(&self) -> (r: u16) {
        proof {
            use_type_invariant(self);
        }
        32 + self.data.len() as u16
    }

    fn serialize(&self, buf: &mut Vec<u8>) {
        put_be32(buf, self.address);
        buf.extend_from_slice(self.data);
        assert(buf@ =~= old(buf)@ + self.spec_data_bytes());
    }
}

/// The largest packet id in the unextended id mode (`2^24 - 1`).
pub const UNEXTENDED_MAXIMUM_PACKET_ID: u32 = 16777215;

/// `PacketResend` command: asks the device to send stream packets again.
#[derive(Clone, Copy, Debug, PartialEq, Eq, Structural)]
pub struct PacketResend {
    is_extended_id: bool,
    stream_channel_index: u16,
    first_packet_id: u32,
    last_packet_id: u32,
    block_id: u64,
}

impl PacketResend {
    /// Whether the command uses extended ids.
    pub closed spec fn spec_is_extended_id(&self) -> bool {
        self.is_extended_id
    }

    /// Stream channel index.
    pub closed spec fn spec_stream_channel_index(&self) -> u16 {
        self.stream_channel_index
    }

    /// First packet id to resend.
    pub closed spec fn spec_first_packet_id(&self) -> u32 {
        self.first_packet_id
    }

    /// Last packet id to resend.
    pub closed spec fn spec_last_packet_id(&self) -> u32 {
        self.last_packet_id
    }

    /// Block id.
    pub closed spec fn spec_block_id(&self) -> u64 {
        self.block_id
    }

    /// A command with a 64 bit block id.
    pub fn with_extended_id(
        stream_channel_index: u16,
        first_packet_id: u32,
        last_packet_id: u32,
        block_id: u64,
    ) -> (r: Self)
        ensures
            r.spec_is_extended_id(),
            r.spec_stream_channel_index() == stream_channel_index,
            r.spec_first_packet_id() == first_packet_id,
            r.spec_last_packet_id() == last_packet_id,
            r.spec_block_id() == block_id,
    {
        PacketResend {
            is_extended_id: true,
            stream_channel_index,
            first_packet_id,
            last_packet_id,
            block_id,
        }
    }

    /// A command with a 16 bit block id; packet ids must not exceed
    /// [`UNEXTENDED_MAXIMUM_PACKET_ID`]. The command it builds is marked as using extended ids,
    /// as the one built by [`Self::with_extended_id`].
    pub fn with_unextended_id(
        stream_channel_index: u16,
        first_packet_id: u32,
        last_packet_id: u32,
        block_id: u16,
    ) -> (r: Result<Self, Error>)
        ensures
            first_packet_id > UNEXTENDED_MAXIMUM_PACKET_ID || last_packet_id
                > UNEXTENDED_MAXIMUM_PACKET_ID ==> r matches Err(Error::InvalidPacket(_)),
            first_packet_id <= UNEXTENDED_MAXIMUM_PACKET_ID && last_packet_id
                <= UNEXTENDED_MAXIMUM_PACKET_ID ==> (r matches Ok(c) && c.spec_is_extended_id()
                && c.spec_stream_channel_index() == stream_channel_index
                && c.spec_first_packet_id() == first_packet_id && c.spec_last_packet_id()
                == last_packet_id && c.spec_block_id() == block_id as u64),
    {
        if first_packet_id > UNEXTENDED_MAXIMUM_PACKET_ID || last_packet_id
            > UNEXTENDED_MAXIMUM_PACKET_ID {
            Err(Error::InvalidPacket("a maximum packet id with unextedned_id_mode is 16777215"))
        } else {
            Ok(
                PacketResend {
                    is_extended_id: true,
                    stream_channel_index,
                    first_packet_id,
                    last_packet_id,
                    block_id: block_id as u64,
                },
            )
        }
    }
}

impl CommandData for PacketResend {
    open spec fn spec_flag(&self) -> CommandFlag {
        if self.spec_is_extended_id() {
            CommandFlag(0x08)
        } else {
            CommandFlag(0)
        }
    }

    open spec fn spec_kind(&self) -> CommandKind {
        CommandKind::PacketResend
    }

    /// Bit counts of the fields: 96, and 64 more with an extended block id.
    open spec fn spec_length(&self) -> u16 {
        if self.spec_is_extended_id() {
            160
        } else {
            96
        }
    }

    open spec fn spec_data_bytes(&self) -> Seq<u8> {
        be16_bytes(self.spec_stream_channel_index()) + (if self.spec_is_extended_id() {
            be16_bytes(0)
        } else {
            be16_bytes(self.spec_block_id() as u16)
        }) + be32_bytes(self.spec_first_packet_id()) + be32_bytes(self.spec_last_packet_id()) + (
        if self.spec_is_extended_id() {
            be64_bytes(self.spec_block_id())
        } else {
            Seq::empty()
        })
    }

    fn flag(&self) -> (r: CommandFlag) {
        if self.is_extended_id {
            assert(0u8 | (1u8 << 3u8) == 0x08u8) by (bit_vector);
            CommandFlag::new().set_bit(3)
        } else {
            CommandFlag::new()
        }
    }

    fn kind(&self) -> (r: CommandKind) {
        CommandKind::PacketResend
    }

    fn length(&self) -> (r: u16) {
        let length: u16 = 16 + 16 + 32 + 32;
        if self.is_extended_id {
            length + 64
        } else {
            length
        }
    }

    fn serialize(&self, buf: &mut Vec<u8>) {
        put_be16(buf, self.stream_channel_index);
        if self.is_extended_id {
            put_be16(buf, 0);
        } else {
            put_be16(buf, self.block_id as u16);
        }
        put_be32(buf, self.first_packet_id);
        put_be32(buf, self.last_packet_id);
        if self.is_extended_id {
            put_be64(buf, self.block_id);
        }
        assert(buf@ =~= old(buf)@ + self.spec_data_bytes());
    }
}

/// Flag byte of a command header.
#[derive(Clone, Copy, Debug, PartialEq, Eq, Structural)]
pub struct CommandFlag(pub u8);

impl CommandFlag {
    /// A flag with no bit set.
    pub fn new() -> (r: Self)
        ensures
            r.0 == 0,
    {
        CommandFlag(0)
    }

    /// Sets bit `pos`.
    pub fn set_bit(self, pos: u8) -> (r: Self)
        requires
            pos < 8,
        ensures
            r.0 == self.0 | (1u8 << pos),
    {
        CommandFlag(self.0 | 1u8 << pos)
    }

    /// Clears bit `pos`.
    pub fn clear_bit(self, pos: u8) -> (r: Self)
        requires
            pos < 8,
        ensures
            r.0 == self.0 & !(1u8 << pos),
    {
        CommandFlag(self.0 & !(1u8 << pos))
    }

    /// Sets the acknowledge bit (bit 7).
    pub fn need_ack(self) -> (r: Self)
        ensures
            r.0 == self.0 | 0x80,
            self.0 == 0 ==> r.0 == 0x80,
    {
        assert(1u8 << 7u8 == 0x80u8) by (bit_vector);
        assert(0u8 | 0x80u8 == 0x80u8) by (bit_vector);
        self.set_bit(7)
    }

    /// Appends the flag byte.
    pub fn serialize(self, buf: &mut Vec<u8>)
        ensures
            final(buf)@ == old(buf)@.push(self.0),
    {
        buf.push(self.0);
    }
}

/// The bytes of `n` big endian values are four per value.
pub proof fn lemma_be32_concat_len(values: Seq<u32>)
    ensures
        be32_concat(values).len() == 4 * values.len(),
    decreases values.len(),
{
    if values.len() > 0 {
        lemma_be32_concat_len(values.drop_last());
    }
}

/// The length field of the read commands and of `Discovery` counts the bytes of their command
/// data.
pub proof fn lemma_read_command_length(read_reg: ReadReg, read_mem: ReadMem, discovery: Discovery)
    requires
        read_reg.spec_addresses().len() <= READ_REG_MAXIMUM_ENTRY_NUMBER,
    ensures
        read_reg.spec_length() == read_reg.spec_data_bytes().len(),
        read_mem.spec_length() == read_mem.spec_data_bytes().len(),
        discovery.spec_length() == discovery.spec_data_bytes().len(),
{
    lemma_be32_concat_len(read_reg.spec_addresses());
}

/// Clearing a bit of a flag after setting it leaves the flag as clearing it alone does, the bit
/// set reads 1 and the bit cleared reads 0, and neither touches another bit.
pub proof fn lemma_flag_bits(f: u8, pos: u8, other: u8)
    requires
        pos < 8,
        other < 8,
        other != pos,
    ensures
        (f | (1u8 << pos)) & !(1u8 << pos) == f & !(1u8 << pos),
        ((f | (1u8 << pos)) >> pos) & 1 == 1,
        ((f & !(1u8 << pos)) >> pos) & 1 == 0,
        ((f | (1u8 << pos)) >> other) & 1 == (f >> other) & 1,
        ((f & !(1u8 << pos)) >> other) & 1 == (f >> other) & 1,
{
    assert((f | (1u8 << pos)) & !(1u8 << pos) == f & !(1u8 << pos)) by (bit_vector)
        requires
            pos < 8,
    ;
    assert(((f | (1u8 << pos)) >> pos) & 1 == 1) by (bit_vector)
        requires
            pos < 8,
    ;
    assert(((f & !(1u8 << pos)) >> pos) & 1 == 0) by (bit_vector)
        requires
            pos < 8,
    ;
    assert(((f | (1u8 << pos)) >> other) & 1 == (f >> other) & 1) by (bit_vector)
        requires
            pos < 8,
            other < 8,
            other != pos,
    ;
    assert(((f & !(1u8 << pos)) >> other) & 1 == (f >> other) & 1) by (bit_vector)
        requires
            pos < 8,
            other < 8,
            other != pos,
    ;
}

} // verus!
