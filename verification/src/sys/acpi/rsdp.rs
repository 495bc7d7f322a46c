use vstd::prelude::*;
use crate::util::le::{le32, le64, read_le32, read_le64};

verus! {

/// The size in bytes of the pointer as ACPI 1.0 lays it out.
pub const RSDP_V1_LEN: usize = 20;

/// The size in bytes of the whole pointer, as ACPI 2.0 lays it out.
pub const RSDP_LEN: usize = 36;

/// The signature that opens the pointer: `RSD PTR `.
pub open spec fn rsdp_signature() -> Seq<u8> {
    seq![0x52u8, 0x53u8, 0x44u8, 0x20u8, 0x50u8, 0x54u8, 0x52u8, 0x20u8]
}

/// The little-endian bytes of a 32-bit value.
pub open spec fn le_bytes32(x: u32) -> Seq<u8> {
    seq![(x % 0x100) as u8, ((x / 0x100) % 0x100) as u8, ((x / 0x1_0000) % 0x100) as u8, (x / 0x100_0000) as u8]
}

/// The little-endian bytes of a 64-bit value.
pub open spec fn le_bytes64(x: u64) -> Seq<u8> {
    le_bytes32((x % 0x1_0000_0000) as u32) + le_bytes32((x / 0x1_0000_0000) as u32)
}

/// The sum of the bytes of `s`.
pub open spec fn byte_sum(s: Seq<u8>) -> int
    decreases s.len(),
{
    if s.len() == 0 {
        0
    } else {
        byte_sum(s.drop_last()) + s.last()
    }
}

/// The root system description pointer.
#[derive(Clone, Copy, Debug)]
pub struct Rsdp {
    pub signature: [u8; 8],
    pub checksum: u8,
    pub oem_id: [u8; 6],
    pub revision: u8,
    /// The 32-bit address of the RSDT (superseded from ACPI 2.0 on).
    pub rsdt_addr: u32,
    /// From ACPI 2.0 on: the length of the pointer.
    pub length: u32,
    /// From ACPI 2.0 on: the 64-bit address of the XSDT.
    pub xsdt_addr: u64,
    /// From ACPI 2.0 on: the checksum of the whole pointer.
    pub ext_checksum: u8,
    pub reserved: [u8; 3],
}

impl Rsdp {
    /// The pointer's 36 bytes, as it lies in memory.
    pub open spec fn image(self) -> Seq<u8> {
        self.signature@ + seq![self.checksum] + self.oem_id@ + seq![self.revision] + le_bytes32(
            self.rsdt_addr,
        ) + le_bytes32(self.length) + le_bytes64(self.xsdt_addr) + seq![self.ext_checksum]
            + self.reserved@
    }

    /// How many bytes the checksum covers: 20 for a 1.0 pointer, else the
    /// pointer's length field.
    pub open spec fn checked_len(self) -> int {
        if self.revision > 0 {
            self.length as int
        } else {
            RSDP_V1_LEN as int
        }
    }

    /// The pointer laid out in the first 36 bytes of `b`.
    pub fn from_bytes(b: &[u8]) -> (r: Rsdp)
        requires
            b.len() >= RSDP_LEN,
        ensures
            r.signature@ == b@.subrange(0, 8),
            r.checksum == b@[8],
            r.oem_id@ == b@.subrange(9, 15),
            r.revision == b@[15],
            r.rsdt_addr == le32(b@, 16),
            r.length == le32(b@, 20),
            r.xsdt_addr == le64(b@, 24),
            r.ext_checksum == b@[32],
            r.reserved@ == b@.subrange(33, 36),
    {
        let r = Rsdp {
            signature: [b[0], b[1], b[2], b[3], b[4], b[5], b[6], b[7]],
            checksum: b[8],
            oem_id: [b[9], b[10], b[11], b[12], b[13], b[14]],
            revision: b[15],
            rsdt_addr: read_le32(b, 16),
            length: read_le32(b, 20),
            xsdt_addr: read_le64(b, 24),
            ext_checksum: b[32],
            reserved: [b[33], b[34], b[35]],
        };
        proof {
            assert(r.signature@ =~= b@.subrange(0, 8));
            assert(r.oem_id@ =~= b@.subrange(9, 15));
            assert(r.reserved@ =~= b@.subrange(33, 36));
        }
        r
    }

    /// The pointer's 36 bytes, as it lies in memory.
    pub fn to_bytes(&self) -> (r: Vec<u8>)
        ensures
            r@ == self.image(),
    {
        let mut v: Vec<u8> = Vec::new();
        let mut i: usize = 0;
        while i < 8
            invariant
                i <= 8,
                v@ == self.signature@.take(i as int),
            decreases 8 - i,
        {
            v.push(self.signature[i]);
            i = i + 1;
            proof {
                assert(v@ =~= self.signature@.take(i as int));
            }
        }
        v.push(self.checksum);
        let mut i: usize = 0;
        while i < 6
            invariant
                i <= 6,
                v@ == self.signature@ + seq![self.checksum] + self.oem_id@.take(i as int),
            decreases 6 - i,
        {
            v.push(self.oem_id[i]);
            i = i + 1;
            proof {
                assert(v@ =~= self.signature@ + seq![self.checksum] + self.oem_id@.take(i as int));
            }
        }
        v.push(self.revision);
        push_le32(&mut v, self.rsdt_addr);
        push_le32(&mut v, self.length);
        push_le32(&mut v, (self.xsdt_addr % 0x1_0000_0000) as u32);
        push_le32(&mut v, (self.xsdt_addr / 0x1_0000_0000) as u32);
        v.push(self.ext_checksum);
        v.push(self.reserved[0]);
        v.push(self.reserved[1]);
        v.push(self.reserved[2]);
        proof {
            assert(self.signature@.take(8) =~= self.signature@);
            assert(self.oem_id@.take(6) =~= self.oem_id@);
            assert(self.reserved@ =~= seq![self.reserved[0], self.reserved[1], self.reserved[2]]);
            assert(v@ =~= self.image());
        }
        v
    }

    /// Checks the pointer: its signature, then that the bytes its checksum
    /// covers add up to 0 modulo 256.
    pub fn validate(&self) -> (r: Result<(), String>)
        requires
            self.checked_len() <= RSDP_LEN,
        ensures
            self.signature@ != rsdp_signature() ==> (r matches Err(e)
                && e@ == "Detected incorrect RSDP signature"@),
            self.signature@ == rsdp_signature() && byte_sum(self.image().take(self.checked_len()))
                % 256 != 0 ==> (r matches Err(e) && e@ == "Found invalid RSDP checksum"@),
            self.signature@ == rsdp_signature() && byte_sum(self.image().take(self.checked_len()))
                % 256 == 0 ==> r is Ok,
    {
        let sig_ok = self.signature[0] == 0x52 && self.signature[1] == 0x53 && self.signature[2]
            == 0x44 && self.signature[3] == 0x20 && self.signature[4] == 0x50 && self.signature[5]
            == 0x54 && self.signature[6] == 0x52 && self.signature[7] == 0x20;
        proof {
            if sig_ok {
                assert(self.signature@ =~= rsdp_signature());
            }
        }
        if !sig_ok {
            return Err("Detected incorrect RSDP signature".to_owned());
        }
        let length: usize = if self.revision > 0 {
            self.length as usize
        } else {
            RSDP_V1_LEN
        };
        let bytes = self.to_bytes();
        let mut sum: u8 = 0;
        let mut i: usize = 0;
        while i < length
            invariant
                length as int == self.checked_len(),
                length <= bytes@.len(),
                bytes@ == self.image(),
                i <= length,
                sum as int == byte_sum(bytes@.take(i as int)) % 256,
            decreases length - i,
        {
            proof {
                assert(bytes@.take(i + 1).drop_last() =~= bytes@.take(i as int));
            }
            sum = sum.wrapping_add(bytes[i]);
            i = i + 1;
        }
        if sum != 0 {
            return Err("Found invalid RSDP checksum".to_owned());
        }
        Ok(())
    }

    /// The physical address of the root table: the RSDT for a 1.0 pointer,
    /// the XSDT from 2.0 on.
    pub fn address(&self) -> (r: usize)
        ensures
            r == (if self.revision == 0 {
                self.rsdt_addr as usize
            } else {
                self.xsdt_addr as usize
            }),
    {
        if self.revision == 0 {
            self.rsdt_addr as usize
        } else {
            self.xsdt_addr as usize
        }
    }
}

/// Appends the little-endian bytes of `x` to `v`.
fn push_le32(v: &mut Vec<u8>, x: u32)
    ensures
        final(v)@ == old(v)@ + le_bytes32(x),
{
    v.push((x % 0x100) as u8);
    v.push(((x / 0x100) % 0x100) as u8);
    v.push(((x / 0x1_0000) % 0x100) as u8);
    v.push((x / 0x100_0000) as u8);
    proof {
        assert(v@ =~= old(v)@ + le_bytes32(x));
    }
}

} // verus!
