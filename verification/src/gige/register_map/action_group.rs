//! (Offset, Length) of registers of an ActionGroup Register map.

use vstd::prelude::*;

verus! {

pub const ACTION_GROUP_KEY: (u32, u16) = (0x0000, 4);
pub const ACTION_GROUP_MASK: (u32, u16) = (0x0004, 4);

/// Base address of the action group `action_index`.
pub fn base_address(action_index: u32) -> (r: u32)
    requires
        0x9800 + 0x0010 * action_index <= u32::MAX,
    ensures
        r == 0x9800 + 0x0010 * action_index,
{
    0x9800 + 0x0010 * action_index
}

} // verus!
