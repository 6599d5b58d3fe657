//! (Address, Length) of registers in Technology Agnostic Boot Register Map (ABRM).

use vstd::prelude::*;

verus! {

pub const GENCP_VERSION: (u64, u16) = (0x0000, 4);

pub const MANUFACTURER_NAME: (u64, u16) = (0x0004, 64);

pub const MODEL_NAME: (u64, u16) = (0x0044, 64);

pub const FAMILY_NAME: (u64, u16) = (0x0084, 64);

pub const DEVICE_VERSION: (u64, u16) = (0x00C4, 64);

pub const MANUFACTURER_INFO: (u64, u16) = (0x0104, 64);

pub const SERIAL_NUMBER: (u64, u16) = (0x0144, 64);

pub const USER_DEFINED_NAME: (u64, u16) = (0x0184, 64);

pub const DEVICE_CAPABILITY: (u64, u16) = (0x01C4, 8);

pub const MAXIMUM_DEVICE_RESPONSE_TIME: (u64, u16) = (0x01CC, 4);

pub const MANIFEST_TABLE_ADDRESS: (u64, u16) = (0x01D0, 8);

pub const SBRM_ADDRESS: (u64, u16) = (0x01D8, 8);

pub const DEVICE_CONFIGURATION: (u64, u16) = (0x01E0, 8);

pub const HEARTBEAT_TIMEOUT: (u64, u16) = (0x01E8, 4);

pub const MESSAGE_CHANNEL_ID: (u64, u16) = (0x01EC, 4);

pub const TIMESTAMP: (u64, u16) = (0x01F0, 8);

pub const TIMESTAMP_LATCH: (u64, u16) = (0x01F8, 4);

pub const TIMESTAMP_INCREMENT: (u64, u16) = (0x01FC, 8);

pub const ACCESS_PRIVILEGE: (u64, u16) = (0x0204, 4);

pub const PROTOCOL_ENDIANNESS: (u64, u16) = (0x0208, 4);

pub const IMPLEMENTATION_ENDIANNESS: (u64, u16) = (0x020C, 4);

pub const DEVICE_SOFTWARE_INTERFACE_VERSION: (u64, u16) = (0x0210, 64);

} // verus!
