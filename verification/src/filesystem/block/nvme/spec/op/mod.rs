use vstd::prelude::*;

pub mod features;
pub mod identify;

verus! {

/// Admin command opcodes.
pub const IDENTIFY: u32 = 0x06;
pub const SET_FEATURES: u32 = 0x09;
pub const GET_FEATURES: u32 = 0x0A;
pub const DEL_SUBQ: u32 = 0x0;
pub const CRT_SUBQ: u32 = 0x01;
pub const DEL_CMPQ: u32 = 0x04;
pub const CRT_CMPQ: u32 = 0x05;

} // verus!
