use vstd::prelude::*;
use crate::sys::acpi::{AcpiTable, Signature};
use crate::sys::acpi::sdt::{SdtHeader, SDT_HEADER_LEN};
use crate::util::le::{le16, le32, le64, read_le16, read_le32, read_le64};

verus! {

/// The size in bytes of the fixed part of the MCFG: its header and 8
/// reserved bytes.
pub const MCFG_LEN: usize = 44;

/// The size in bytes of one configuration space entry of the MCFG.
pub const MCFG_ENTRY_LEN: usize = 16;

/// One memory-mapped configuration space: a PCI segment group and the
/// buses it serves.
#[derive(Clone, Copy, Debug)]
pub struct McfgEntry {
    pub base_addr: u64,
    pub seg_grp: u16,
    pub bus_num_start: u8,
    pub bus_num_end: u8,
    pub reserved: u32,
}

/// The entry laid out at `t[at..at + 16]`.
pub open spec fn mcfg_entry_at(t: Seq<u8>, at: int) -> McfgEntry {
    McfgEntry {
        base_addr: le64(t, at) as u64,
        seg_grp: le16(t, at + 8) as u16,
        bus_num_start: t[at + 10],
        bus_num_end: t[at + 11],
        reserved: le32(t, at + 12) as u32,
    }
}

/// The entries that follow the fixed part of the table `t`, as many whole
/// ones as its length field leaves room for.
pub open spec fn mcfg_entries(t: Seq<u8>) -> Seq<McfgEntry> {
    Seq::new(
        ((le32(t, 4) - MCFG_LEN) / MCFG_ENTRY_LEN as int) as nat,
        |i: int| mcfg_entry_at(t, MCFG_LEN + MCFG_ENTRY_LEN * i),
    )
}

/// Whether `t` holds a whole MCFG: its fixed part, and as many bytes as its
/// length field gives.
pub open spec fn mcfg_well_formed(t: Seq<u8>) -> bool {
    &&& t.len() >= MCFG_LEN
    &&& le32(t, 4) >= MCFG_LEN
    &&& le32(t, 4) <= t.len()
}

/// The PCI Express memory-mapped configuration table.
pub struct Mcfg {
    header: SdtHeader,
    table: Vec<u8>,
}

impl Mcfg {
    #[verifier::type_invariant]
    spec fn inv(self) -> bool {
        &&& mcfg_well_formed(self.table@)
        &&& self.header == SdtHeader::spec_from_bytes(self.table@)
    }

    /// The bytes of the table.
    pub closed spec fn bytes(&self) -> Seq<u8> {
        self.table@
    }

    /// The table laid out in `table`, which spans it.
    pub fn from_bytes(table: Vec<u8>) -> (r: Mcfg)
        requires
            mcfg_well_formed(table@),
        ensures
            r.bytes() == table@,
    {
        let header = SdtHeader::from_bytes(table.as_slice());
        Mcfg { header, table }
    }

    /// The configuration space entries of the table.
    pub fn entries(&self) -> (r: Vec<McfgEntry>)
        ensures
            r@ == mcfg_entries(self.bytes()),
    {
        proof {
            use_type_invariant(self);
        }
        let t = self.table.as_slice();
        let len = self.header.length as usize - MCFG_LEN;
        let num_entries = len / MCFG_ENTRY_LEN;
        let ghost want = mcfg_entries(t@);
        let mut out: Vec<McfgEntry> = Vec::new();
        let mut i: usize = 0;
        while i < num_entries
            invariant
                mcfg_well_formed(t@),
                len == le32(t@, 4) - MCFG_LEN,
                num_entries == len / 16,
                want == mcfg_entries(t@),
                want.len() == num_entries,
                i <= num_entries,
                out@ == want.take(i as int),
            decreases num_entries - i,
        {
            proof {
                assert(16 * (i + 1) <= 16 * num_entries) by (nonlinear_arith)
                    requires i < num_entries;
                assert(16 * num_entries <= len) by (nonlinear_arith)
                    requires num_entries == len / 16, len >= 0;
            }
            let at = MCFG_LEN + MCFG_ENTRY_LEN * i;
            let e = McfgEntry {
                base_addr: read_le64(t, at),
                seg_grp: read_le16(t, at + 8),
                bus_num_start: t[at + 10],
                bus_num_end: t[at + 11],
                reserved: read_le32(t, at + 12),
            };
            out.push(e);
            i = i + 1;
            proof {
                assert(out@ =~= want.take(i as int));
            }
        }
        proof {
            assert(out@ =~= want);
        }
        out
    }
}

impl AcpiTable for Mcfg {
    fn signature() -> (r: Signature)
        ensures
            r.0@ == seq![0x4Du8, 0x43u8, 0x46u8, 0x47u8],
    {
        Signature::mcfg()
    }

    fn header(&self) -> (r: &SdtHeader)
        ensures
            *r == SdtHeader::spec_from_bytes(self.bytes()),
    {
        proof {
            use_type_invariant(self);
        }
        &self.header
    }
}

} // verus!
