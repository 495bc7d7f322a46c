use vstd::prelude::*;

verus! {

/// Command set identifiers.
pub const NVM: u8 = 0x00;
pub const KEY_VALUE: u8 = 0x01;
pub const ZONED: u8 = 0x02;

} // verus!
