use vstd::prelude::*;
use crate::sys::acpi::Signature;
use crate::util::le::{le32, read_le32};

pub mod madt;
pub mod mcfg;

verus! {

/// The size in bytes of a system description table header.
pub const SDT_HEADER_LEN: usize = 36;

/// The header that opens every system description table.
#[derive(Clone, Copy, Debug)]
pub struct SdtHeader {
    pub signature: Signature,
    pub length: u32,
    pub revision: u8,
    pub checksum: u8,
    pub oem_id: [u8; 6],
    pub oem_table_id: [u8; 8],
    pub oem_revision: u32,
    pub creator_id: u32,
    pub creator_revision: u32,
}

impl SdtHeader {
    /// The header laid out in the first 36 bytes of `b`.
    pub open spec fn spec_from_bytes(b: Seq<u8>) -> SdtHeader {
        SdtHeader {
            signature: Signature([b[0], b[1], b[2], b[3]]),
            length: le32(b, 4) as u32,
            revision: b[8],
            checksum: b[9],
            oem_id: [b[10], b[11], b[12], b[13], b[14], b[15]],
            oem_table_id: [b[16], b[17], b[18], b[19], b[20], b[21], b[22], b[23]],
            oem_revision: le32(b, 24) as u32,
            creator_id: le32(b, 28) as u32,
            creator_revision: le32(b, 32) as u32,
        }
    }

    /// Reads the header laid out in the first 36 bytes of `b`.
    pub fn from_bytes(b: &[u8]) -> (r: SdtHeader)
        requires
            b.len() >= SDT_HEADER_LEN,
        ensures
            r == SdtHeader::spec_from_bytes(b@),
    {
        SdtHeader {
            signature: Signature([b[0], b[1], b[2], b[3]]),
            length: read_le32(b, 4),
            revision: b[8],
            checksum: b[9],
            oem_id: [b[10], b[11], b[12], b[13], b[14], b[15]],
            oem_table_id: [b[16], b[17], b[18], b[19], b[20], b[21], b[22], b[23]],
            oem_revision: read_le32(b, 24),
            creator_id: read_le32(b, 28),
            creator_revision: read_le32(b, 32),
        }
    }
}

} // verus!
