//! (Offset, Length) of registers in Event Interface Register Map (EIRM).

use vstd::prelude::*;

verus! {

pub const EI_CONTROL: (u64, u16) = (0x0000, 4);

pub const MAXIMUM_EVENT_TRANSFER_LENGTH: (u64, u16) = (0x0004, 4);

pub const EVENT_TEST_CONTROL: (u64, u16) = (0x0008, 4);

} // verus!
