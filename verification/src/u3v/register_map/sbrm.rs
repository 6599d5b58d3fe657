//! (Offset, Length) of registers in Technology Specific Boot Register Map (SBRM).

use vstd::prelude::*;

verus! {

pub const U3V_VERSION: (u64, u16) = (0x0000, 4);

pub const U3VCP_CAPABILITY_REGISTER: (u64, u16) = (0x0004, 8);

pub const U3VCP_CONFIGURATION_REGISTER: (u64, u16) = (0x000C, 8);

pub const MAXIMUM_COMMAND_TRANSFER_LENGTH: (u64, u16) = (0x014, 4);

pub const MAXIMUM_ACKNOWLEDGE_TRANSFER_LENGTH: (u64, u16) = (0x018, 4);

pub const NUMBER_OF_STREAM_CHANNELS: (u64, u16) = (0x01C, 4);

pub const SIRM_ADDRESS: (u64, u16) = (0x020, 8);

pub const SIRM_LENGTH: (u64, u16) = (0x028, 4);

pub const EIRM_ADDRESS: (u64, u16) = (0x02C, 8);

pub const EIRM_LENGTH: (u64, u16) = (0x034, 4);

pub const IIDC2_ADDRESS: (u64, u16) = (0x038, 8);

pub const CURRENT_SPEED: (u64, u16) = (0x040, 4);

} // verus!
