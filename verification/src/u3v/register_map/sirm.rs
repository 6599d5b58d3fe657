//! (Offset, Length) of registers in Streaming Interface Register Map (SIRM).

use vstd::prelude::*;

verus! {

pub const SI_INFO: (u64, u16) = (0x0000, 4);

pub const SI_CONTROL: (u64, u16) = (0x0004, 4);

pub const REQUIRED_PAYLOAD_SIZE: (u64, u16) = (0x0008, 8);

pub const REQUIRED_LEADER_SIZE: (u64, u16) = (0x0010, 4);

pub const REQUIRED_TRAILER_SIZE: (u64, u16) = (0x0014, 4);

pub const MAXIMUM_LEADER_SIZE: (u64, u16) = (0x0018, 4);

pub const PAYLOAD_TRANSFER_SIZE: (u64, u16) = (0x001C, 4);

pub const PAYLOAD_TRANSFER_COUNT: (u64, u16) = (0x0020, 4);

pub const PAYLOAD_FINAL_TRANSFER1_SIZE: (u64, u16) = (0x0024, 4);

pub const PAYLOAD_FINAL_TRANSFER2_SIZE: (u64, u16) = (0x0028, 4);

pub const MAXIMUM_TRAILER_SIZE: (u64, u16) = (0x002C, 4);

} // verus!
