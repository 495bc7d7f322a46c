use vstd::prelude::*;

verus! {

/// Feature identifiers.
pub const FID_NUM_QUEUES: u32 = 0x07;
pub const FID_SET_PROFILE: u32 = 0x19;
pub const FID_INT_VEC_CONF: u32 = 0x09;

} // verus!
