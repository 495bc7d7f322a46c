use vstd::prelude::*;

pub mod addr;
pub mod frame;
pub mod page;
pub mod pmm;
pub mod vmm;

verus! {

/// The size in bytes of the frames that the physical memory manager hands
/// out.
pub const FRAME_SIZE: u64 = 4096;

} // verus!
