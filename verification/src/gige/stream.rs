//! `GVSP` stream packet headers and leaders.

use vstd::prelude::*;

use crate::bytes::{be16, be32, be64, Cursor, IoError};

use super::{status_kind_of, Error, PacketStatus};

verus! {

/// Bit `n` of `x`, counted from the least significant bit.
pub open spec fn bit16(x: u16, n: u16) -> bool {
    (x >> n) & 1 == 1
}

/// The `n` bytes at `off` past the cursor position.
pub open spec fn bytes_at(c: Cursor, off: int, n: int) -> Seq<u8> {
    c.data().subrange(c.pos() + off, c.pos() + off + n)
}

/// The packet type that the low four bits of `raw` encode, if any.
pub open spec fn packet_type_of(raw: u8) -> Option<PacketType> {
    let code = raw & 0xf;
    if code == 1 {
        Some(PacketType::Leader)
    } else if code == 2 {
        Some(PacketType::Trailer)
    } else if code == 3 {
        Some(PacketType::GenericPayload)
    } else if code == 5 {
        Some(PacketType::H264Payload)
    } else if code == 6 {
        Some(PacketType::MultiZonePayload)
    } else {
        None
    }
}

/// The packet type follows the `GVSP` table on the low four bits of the packet format: 1 leader,
/// 2 trailer, 3 generic payload, 5 H.264 payload, 6 multi zone payload; other codes are none.
pub proof fn lemma_packet_type_table(raw: u8)
    ensures
        raw & 0xf == 1 ==> packet_type_of(raw) == Some(PacketType::Leader),
        raw & 0xf == 2 ==> packet_type_of(raw) == Some(PacketType::Trailer),
        raw & 0xf == 3 ==> packet_type_of(raw) == Some(PacketType::GenericPayload),
        raw & 0xf == 5 ==> packet_type_of(raw) == Some(PacketType::H264Payload),
        raw & 0xf == 6 ==> packet_type_of(raw) == Some(PacketType::MultiZonePayload),
        packet_type_of(raw) is None <==> (raw & 0xf == 0 || raw & 0xf == 4 || raw & 0xf >= 7),
{
}

/// Type of a `GVSP` packet.
#[derive(Clone, Copy, Debug, PartialEq, Eq, Structural)]
pub enum PacketType {
    Leader,
    Trailer,
    GenericPayload,
    H264Payload,
    MultiZonePayload,
}

impl PacketType {
    /// Decodes the low four bits of `raw`.
    fn parse(raw: u8) -> (r: Result<Self, Error>)
        ensures
            match packet_type_of(raw) {
                Some(t) => r == Ok::<Self, Error>(t),
                None => r matches Err(Error::InvalidData(_)),
            },
    {
        let code = raw & 0xf;
        if code == 1 {
            Ok(PacketType::Leader)
        } else if code == 2 {
            Ok(PacketType::Trailer)
        } else if code == 3 {
            Ok(PacketType::GenericPayload)
        } else if code == 5 {
            Ok(PacketType::H264Payload)
        } else if code == 6 {
            Ok(PacketType::MultiZonePayload)
        } else {
            Err(Error::InvalidData("invalid GVSP packet type"))
        }
    }
}

/// Flags of an extended `GVSP` header.
#[derive(Clone, Copy, Debug, PartialEq, Eq, Structural)]
pub struct StreamFlag(pub u16);

impl StreamFlag {
    /// Bit 13.
    pub fn is_resend_range_error(self) -> (r: bool)
        ensures
            r == bit16(self.0, 13),
    {
        (self.0 >> 13u16) & 1 == 1
    }

    /// Bit 14.
    pub fn is_previous_block_dropped(self) -> (r: bool)
        ensures
            r == bit16(self.0, 14),
    {
        (self.0 >> 14u16) & 1 == 1
    }

    /// Bit 15.
    pub fn is_packet_resend(self) -> (r: bool)
        ensures
            r == bit16(self.0, 15),
    {
        (self.0 >> 15u16) & 1 == 1
    }
}

/// Header of a `GVSP` packet.
#[derive(Clone, Copy, Debug, PartialEq, Eq, Structural)]
pub struct PacketHeader {
    pub status: PacketStatus,
    pub ei_flag: bool,
    pub packet_type: PacketType,
    pub block_id: u64,
    pub packet_id: u32,
    pub stream_flag: StreamFlag,
}

/// `h` holds the header at the position of `c`, whose data hold all its bytes.
pub open spec fn packet_header_matches(h: PacketHeader, c: Cursor) -> bool {
    let bid_sflag = be16(bytes_at(c, 2, 2));
    let ei_ptype_pid = be32(bytes_at(c, 4, 4));
    let ei = ei_ptype_pid >> 31 == 1;
    &&& h.status.spec_code() == be16(bytes_at(c, 0, 2))
    &&& Some(h.status.spec_kind()) == status_kind_of(be16(bytes_at(c, 0, 2)))
    &&& h.ei_flag == ei
    &&& Some(h.packet_type) == packet_type_of((ei_ptype_pid >> 24) as u8)
    &&& if ei {
        &&& h.block_id == be64(bytes_at(c, 8, 8))
        &&& h.packet_id == be32(bytes_at(c, 16, 4))
        &&& h.stream_flag == StreamFlag(bid_sflag)
    } else {
        &&& h.block_id == bid_sflag as u64
        &&& h.packet_id == ei_ptype_pid & 0xff_ffff
        &&& h.stream_flag == StreamFlag(0)
    }
}

/// The number of bytes of the header at the position of `c`: 20 when its extended id bit is
/// set, else 8.
pub open spec fn packet_header_len(c: Cursor) -> int {
    if be32(bytes_at(c, 4, 4)) >> 31 == 1 {
        20
    } else {
        8
    }
}

impl PacketHeader {
    /// Parses a header: status, block id or flags, then the extended id bit, the packet type
    /// and the packet id; with the extended id bit a 64 bit block id and a 32 bit packet id
    /// follow. A missing field gives `Io`, an unknown status `InvalidPacket`, an unknown packet
    /// type `InvalidData`.
    pub fn parse(cursor: &mut Cursor) -> (r: Result<Self, Error>)
        ensures
            final(cursor).data() == old(cursor).data(),
            !old(cursor).can_read(2) ==> r == Err::<Self, Error>(Error::Io(IoError::UnexpectedEof)),
            old(cursor).can_read(2) && status_kind_of(be16(bytes_at(*old(cursor), 0, 2))) is None
                ==> r matches Err(Error::InvalidPacket(_)),
            old(cursor).can_read(2) && status_kind_of(be16(bytes_at(*old(cursor), 0, 2))) is Some
                ==> {
                if !old(cursor).can_read(8) {
                    r == Err::<Self, Error>(Error::Io(IoError::UnexpectedEof))
                } else if packet_type_of((be32(bytes_at(*old(cursor), 4, 4)) >> 24) as u8) is None {
                    r matches Err(Error::InvalidData(_))
                } else if !old(cursor).can_read(packet_header_len(*old(cursor))) {
                    r == Err::<Self, Error>(Error::Io(IoError::UnexpectedEof))
                } else {
                    &&& r matches Ok(h) && packet_header_matches(h, *old(cursor))
                    &&& final(cursor).pos() == old(cursor).pos() + packet_header_len(*old(cursor))
                }
            },
    {
        let ghost c0 = *cursor;
        let status = PacketStatus::parse(cursor)?;
        assert(cursor.ahead(2) =~= bytes_at(c0, 2, 2));
        let bid_sflag = match cursor.read_be16() {
            Ok(v) => v,
            Err(e) => return Err(Error::Io(e)),
        };
        assert(cursor.ahead(4) =~= bytes_at(c0, 4, 4));
        let ei_ptype_pid = match cursor.read_be32() {
            Ok(v) => v,
            Err(e) => return Err(Error::Io(e)),
        };
        let ei_flag = (ei_ptype_pid >> 31u32) == 1;
        let packet_type = PacketType::parse((ei_ptype_pid >> 24u32) as u8)?;
        if ei_flag {
            assert(cursor.ahead(8) =~= bytes_at(c0, 8, 8));
            let block_id = match cursor.read_be64() {
                Ok(v) => v,
                Err(e) => return Err(Error::Io(e)),
            };
            assert(cursor.ahead(4) =~= bytes_at(c0, 16, 4));
            let packet_id = match cursor.read_be32() {
                Ok(v) => v,
                Err(e) => return Err(Error::Io(e)),
            };
            Ok(PacketHeader {
                status,
                ei_flag,
                packet_type,
                block_id,
                packet_id,
                stream_flag: StreamFlag(bid_sflag),
            })
        } else {
            Ok(PacketHeader {
                status,
                ei_flag,
                packet_type,
                block_id: bid_sflag as u64,
                packet_id: ei_ptype_pid & 0xff_ffff,
                stream_flag: StreamFlag(0),
            })
        }
    }
}

/// Kind of a payload, from the low four bits of its payload type.
#[derive(Clone, Copy, Debug, PartialEq, Eq, Structural)]
pub enum PayloadTypeKind {
    Image,
    RawData,
    File,
    ChunkData,
    Jpeg,
    Jpeg2000,
    H264,
    MultiZone,
    DeviceSpecific(u16),
}

/// The payload kind of the payload type `raw`.
pub open spec fn payload_type_kind_of(raw: u16) -> PayloadTypeKind {
    let code = raw & 0xf;
    if code == 1 {
        PayloadTypeKind::Image
    } else if code == 2 {
        PayloadTypeKind::RawData
    } else if code == 3 {
        PayloadTypeKind::File
    } else if code == 4 {
        PayloadTypeKind::ChunkData
    } else if code == 6 {
        PayloadTypeKind::Jpeg
    } else if code == 7 {
        PayloadTypeKind::Jpeg2000
    } else if code == 8 {
        PayloadTypeKind::H264
    } else if code == 9 {
        PayloadTypeKind::MultiZone
    } else {
        PayloadTypeKind::DeviceSpecific(raw)
    }
}

/// The payload kind follows the `GigE Vision` payload type table on the low four bits of the
/// payload type: 1 image, 2 raw data, 3 file, 4 chunk data, 6 JPEG, 7 JPEG 2000, 8 H.264,
/// 9 multi zone; any other code is device specific and keeps the whole value.
pub proof fn lemma_payload_type_table(raw: u16)
    ensures
        raw & 0xf == 1 ==> payload_type_kind_of(raw) == PayloadTypeKind::Image,
        raw & 0xf == 2 ==> payload_type_kind_of(raw) == PayloadTypeKind::RawData,
        raw & 0xf == 3 ==> payload_type_kind_of(raw) == PayloadTypeKind::File,
        raw & 0xf == 4 ==> payload_type_kind_of(raw) == PayloadTypeKind::ChunkData,
        raw & 0xf == 6 ==> payload_type_kind_of(raw) == PayloadTypeKind::Jpeg,
        raw & 0xf == 7 ==> payload_type_kind_of(raw) == PayloadTypeKind::Jpeg2000,
        raw & 0xf == 8 ==> payload_type_kind_of(raw) == PayloadTypeKind::H264,
        raw & 0xf == 9 ==> payload_type_kind_of(raw) == PayloadTypeKind::MultiZone,
        raw & 0xf == 0 || raw & 0xf == 5 || raw & 0xf >= 10 ==> payload_type_kind_of(raw)
            == PayloadTypeKind::DeviceSpecific(raw),
{
}

/// Payload type of a leader.
#[derive(Clone, Copy, Debug, PartialEq, Eq, Structural)]
pub struct PayloadType(pub u16);

impl PayloadType {
    /// The payload kind.
    pub fn kind(self) -> (r: PayloadTypeKind)
        ensures
            r == payload_type_kind_of(self.0),
            self.0 & 0xf == 6 ==> r == PayloadTypeKind::Jpeg,
            self.0 & 0xf == 7 ==> r == PayloadTypeKind::Jpeg2000,
            self.0 & 0xf == 1 ==> r == PayloadTypeKind::Image,
            self.0 & 0xf == 8 ==> r == PayloadTypeKind::H264,
    {
        let code = self.0 & 0xf;
        if code == 1 {
            PayloadTypeKind::Image
        } else if code == 2 {
            PayloadTypeKind::RawData
        } else if code == 3 {
            PayloadTypeKind::File
        } else if code == 4 {
            PayloadTypeKind::ChunkData
        } else if code == 6 {
            PayloadTypeKind::Jpeg
        } else if code == 7 {
            PayloadTypeKind::Jpeg2000
        } else if code == 8 {
            PayloadTypeKind::H264
        } else if code == 9 {
            PayloadTypeKind::MultiZone
        } else {
            PayloadTypeKind::DeviceSpecific(self.0)
        }
    }

    /// Bit 1.
    pub fn is_extended_chunk(self) -> (r: bool)
        ensures
            r == bit16(self.0, 1),
    {
        (self.0 >> 1u16) & 1 == 1
    }

    /// Reads a big endian payload type.
    fn parse(cursor: &mut Cursor) -> (r: Result<Self, Error>)
        ensures
            final(cursor).data() == old(cursor).data(),
            !old(cursor).can_read(2) ==> r == Err::<Self, Error>(Error::Io(IoError::UnexpectedEof)),
            old(cursor).can_read(2) ==> r == Ok::<Self, Error>(PayloadType(be16(old(cursor).ahead(2))))
                && final(cursor).pos() == old(cursor).pos() + 2,
    {
        match cursor.read_be16() {
            Ok(v) => Ok(PayloadType(v)),
            Err(e) => Err(Error::Io(e)),
        }
    }

    /// Looks ahead past the two bytes of the payload type specific field at the start of a
    /// leader and reads the payload type after them; the cursor is left where it was.
    pub fn parse_generic_leader(cursor: &mut Cursor) -> (r: Result<Self, Error>)
        ensures
            final(cursor).data() == old(cursor).data(),
            !old(cursor).can_read(4) ==> r == Err::<Self, Error>(Error::Io(IoError::UnexpectedEof)),
            old(cursor).can_read(4) ==> r == Ok::<Self, Error>(PayloadType(be16(bytes_at(*old(cursor), 2, 2))))
                && final(cursor).pos() == old(cursor).pos(),
    {
        let ghost c0 = *cursor;
        let position_pre = cursor.position();
        if let Err(e) = cursor.read_be16() {
            return Err(Error::Io(e));
        }
        assert(cursor.ahead(2) =~= bytes_at(c0, 2, 2));
        let res = Self::parse(cursor);
        cursor.set_position(position_pre);
        res
    }
}

/// Leader of an image payload. The pixel format is held as its raw code.
#[derive(Debug)]
pub struct ImageLeader {
    field_id: u8,
    field_count: u8,
    payload_type: PayloadType,
    timestamp: u64,
    pixel_format: u32,
    width: u32,
    height: u32,
    x_offset: u32,
    y_offset: u32,
    x_padding: u16,
    y_padding: u16,
}

/// The number of bytes of an image leader.
pub const IMAGE_LEADER_LEN: usize = 36;

/// `l` holds the image leader at the position of `c`.
pub open spec fn image_leader_matches(l: ImageLeader, c: Cursor) -> bool {
    image_leader_at(l, c.data(), c.pos())
}

/// `l` holds the image leader that starts at offset `p` of `data`.
pub open spec fn image_leader_at(l: ImageLeader, data: Seq<u8>, p: int) -> bool {
    let field = data[p];
    &&& l.spec_field_id() == field >> 4
    &&& l.spec_field_count() == field & 0xf
    &&& l.spec_payload_type() == PayloadType(be16(data.subrange(p + 2, p + 4)))
    &&& l.spec_timestamp() == be64(data.subrange(p + 4, p + 12))
    &&& l.spec_pixel_format() == be32(data.subrange(p + 12, p + 16))
    &&& l.spec_width() == be32(data.subrange(p + 16, p + 20))
    &&& l.spec_height() == be32(data.subrange(p + 20, p + 24))
    &&& l.spec_x_offset() == be32(data.subrange(p + 24, p + 28))
    &&& l.spec_y_offset() == be32(data.subrange(p + 28, p + 32))
    &&& l.spec_x_padding() == be16(data.subrange(p + 32, p + 34))
    &&& l.spec_y_padding() == be16(data.subrange(p + 34, p + 36))
}

impl ImageLeader {
    pub closed spec fn spec_field_id(&self) -> u8 {
        self.field_id
    }

    pub closed spec fn spec_field_count(&self) -> u8 {
        self.field_count
    }

    pub closed spec fn spec_payload_type(&self) -> PayloadType {
        self.payload_type
    }

    pub closed spec fn spec_timestamp(&self) -> u64 {
        self.timestamp
    }

    pub closed spec fn spec_pixel_format(&self) -> u32 {
        self.pixel_format
    }

    pub closed spec fn spec_width(&self) -> u32 {
        self.width
    }

    pub closed spec fn spec_height(&self) -> u32 {
        self.height
    }

    pub closed spec fn spec_x_offset(&self) -> u32 {
        self.x_offset
    }

    pub closed spec fn spec_y_offset(&self) -> u32 {
        self.y_offset
    }

    pub closed spec fn spec_x_padding(&self) -> u16 {
        self.x_padding
    }

    pub closed spec fn spec_y_padding(&self) -> u16 {
        self.y_padding
    }

    /// The field id (high nibble of the first byte).
    pub fn field_id(&self) -> (r: u8)
        ensures
            r == self.spec_field_id(),
    {
        self.field_id
    }

    /// The field count (low nibble of the first byte).
    pub fn field_count(&self) -> (r: u8)
        ensures
            r == self.spec_field_count(),
    {
        self.field_count
    }

    /// The payload type.
    pub fn payload_type(&self) -> (r: PayloadType)
        ensures
            r == self.spec_payload_type(),
    {
        self.payload_type
    }

    /// The timestamp.
    pub fn timestamp(&self) -> (r: u64)
        ensures
            r == self.spec_timestamp(),
    {
        self.timestamp
    }

    /// The raw pixel format code.
    pub fn pixel_format(&self) -> (r: u32)
        ensures
            r == self.spec_pixel_format(),
    {
        self.pixel_format
    }

    /// The width.
    pub fn width(&self) -> (r: u32)
        ensures
            r == self.spec_width(),
    {
        self.width
    }

    /// The height.
    pub fn height(&self) -> (r: u32)
        ensures
            r == self.spec_height(),
    {
        self.height
    }

    /// The horizontal offset.
    pub fn x_offset(&self) -> (r: u32)
        ensures
            r == self.spec_x_offset(),
    {
        self.x_offset
    }

    /// The vertical offset.
    pub fn y_offset(&self) -> (r: u32)
        ensures
            r == self.spec_y_offset(),
    {
        self.y_offset
    }

    /// The horizontal padding.
    pub fn x_padding(&self) -> (r: u16)
        ensures
            r == self.spec_x_padding(),
    {
        self.x_padding
    }

    /// The vertical padding.
    pub fn y_padding(&self) -> (r: u16)
        ensures
            r == self.spec_y_padding(),
    {
        self.y_padding
    }

    /// Parses an image leader of [`IMAGE_LEADER_LEN`] bytes: field byte, reserved byte,
    /// payload type, timestamp, pixel format, width, height, offsets and paddings, all big
    /// endian; fewer bytes give `Io`.
    pub fn parse(cursor: &mut Cursor) -> (r: Result<Self, Error>)
        ensures
            final(cursor).data() == old(cursor).data(),
            !old(cursor).can_read(36) ==> r == Err::<Self, Error>(Error::Io(IoError::UnexpectedEof)),
            old(cursor).can_read(36) ==> (r matches Ok(l) && image_leader_matches(l, *old(cursor)))
                && final(cursor).pos() == old(cursor).pos() + 36,
    {
        let ghost c0 = *cursor;
        let p = cursor.position();
        let data = cursor.get_ref();
        if p > data.len() || data.len() - p < IMAGE_LEADER_LEN {
            return Err(Error::Io(IoError::UnexpectedEof));
        }
        let field = data[p];
        let field_id = field >> 4u8;
        let field_count = field & 0x0f;
        let payload_type = PayloadType(crate::bytes::get_be16(data, p + 2));
        let timestamp = crate::bytes::get_be64(data, p + 4);
        let pixel_format = crate::bytes::get_be32(data, p + 12);
        let width = crate::bytes::get_be32(data, p + 16);
        let height = crate::bytes::get_be32(data, p + 20);
        let x_offset = crate::bytes::get_be32(data, p + 24);
        let y_offset = crate::bytes::get_be32(data, p + 28);
        let x_padding = crate::bytes::get_be16(data, p + 32);
        let y_padding = crate::bytes::get_be16(data, p + 34);
        cursor.set_position(p + 36);
        Ok(ImageLeader {
            field_id,
            field_count,
            payload_type,
            timestamp,
            pixel_format,
            width,
            height,
            x_offset,
            y_offset,
            x_padding,
            y_padding,
        })
    }
}

/// Trailer of an image payload; it carries no field.
#[derive(Debug)]
pub struct ImageTrailer {}

impl ImageTrailer {
    /// Reads nothing and always succeeds.
    pub fn parse(cursor: &mut Cursor) -> (r: Result<Self, Error>)
        ensures
            final(cursor).data() == old(cursor).data(),
            final(cursor).pos() == old(cursor).pos(),
            r is Ok,
    {
        Ok(ImageTrailer {})
    }
}

} // verus!
