use vstd::prelude::*;

verus! {

/// The hardware types an ARP packet can name.
#[derive(Debug, Clone, Copy, PartialEq, Eq, Structural)]
pub enum HardwareType {
    Ethernet,
}

impl HardwareType {
    /// The type's number, most significant byte first.
    pub fn to_bytes(&self) -> (r: [u8; 2])
        ensures
            r@ == seq![0u8, 1u8],
    {
        let r = [0u8, 1u8];
        proof {
            assert(r@ =~= seq![0u8, 1u8]);
        }
        r
    }
}

} // verus!
