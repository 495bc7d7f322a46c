use vstd::prelude::*;

verus! {

/// Identify controller-or-namespace-structure values.
pub const CNS_NAMESPACE: u32 = 0x0;
pub const CNS_CONTROLLER: u32 = 0x1;
pub const CNS_SPECIFIC_NS: u32 = 0x5;
pub const CNS_SPECIFIC_CTRLR: u32 = 0x6;
pub const CNS_ACTIVE_NS_CMD_SET: u32 = 0x7;
pub const CNS_NAMESPACE_INDEPENDENT: u32 = 0x8;
pub const CNS_CMD_SET: u32 = 0x1C;

} // verus!
