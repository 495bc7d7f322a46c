use vstd::prelude::*;

pub mod csi;
pub mod op;

verus! {

/// The number of I/O queue pairs the driver asks for.
pub const IO_QUEUES: u16 = 2;

/// Controller register offsets.
pub const CAP: u32 = 0x0;
pub const VS: u32 = 0x08;
pub const INTMS: u32 = 0x0C;
pub const INTMC: u32 = 0x10;
pub const CC: u32 = 0x14;
pub const CSTS: u32 = 0x1C;
pub const AQA: u32 = 0x24;
pub const ASQ: u32 = 0x28;
pub const ACQ: u32 = 0x30;

} // verus!
