//! (Offset, Length) of registers of a Stream Register map.

use vstd::prelude::*;

verus! {

pub const STREAM_CHANNEL_PORT: (u32, u16) = (0x0000, 4);
pub const STREAM_CHANNEL_PACKET_SIZE: (u32, u16) = (0x0004, 4);
pub const STREAM_CHANNEL_PACKET_DELAY: (u32, u16) = (0x0008, 4);
pub const STREAM_CHANNEL_DESTINATION_ADDRESS: (u32, u16) = (0x0018, 4);
pub const STREAM_CHANNEL_SOURCE_PORT: (u32, u16) = (0x001C, 4);
pub const STREAM_CHANNEL_CAPABILITY: (u32, u16) = (0x0020, 4);
pub const STREAM_CHANNEL_CONFIGURATION: (u32, u16) = (0x0024, 4);
pub const STREAM_CHANNEL_ZONE: (u32, u16) = (0x0028, 4);
pub const STREAM_CHANNEL_ZONE_DIRECTION: (u32, u16) = (0x002C, 4);

/// Base address of the stream channel `channel_index`.
pub fn base_address(channel_index: u32) -> (r: u32)
    requires
        0x0D00 + 0x0040 * channel_index <= u32::MAX,
    ensures
        r == 0x0D00 + 0x0040 * channel_index,
{
    0x0D00 + 0x0040 * channel_index
}

} // verus!
