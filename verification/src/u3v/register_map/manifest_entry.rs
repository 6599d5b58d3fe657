//! (Offset, Length) of registers in a manifest entry.

use vstd::prelude::*;

verus! {

pub const GENICAM_FILE_VERSION: (u64, u16) = (0x0000, 4);

/// Information about schema version, file type and file format is serialized into 32 bit field.
pub const FILE_FORMAT_INFO: (u64, u16) = (0x0004, 4);

pub const REGISTER_ADDRESS: (u64, u16) = (0x0008, 8);

pub const FILE_SIZE: (u64, u16) = (0x0010, 8);

pub const SHA1_HASH: (u64, u16) = (0x0018, 20);

} // verus!
