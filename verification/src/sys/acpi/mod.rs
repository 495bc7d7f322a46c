use vstd::prelude::*;
use crate::sys::acpi::sdt::{SdtHeader, SDT_HEADER_LEN};
use crate::util::le::{le32, le64, read_le32, read_le64};

pub mod rsdp;
pub mod sdt;

verus! {

/// The four-byte signature that opens every system description table.
#[derive(Clone, Copy, PartialEq, Eq, Debug)]
pub struct Signature(pub [u8; 4]);

impl Signature {
    /// The signature of the PCI Express memory-mapped configuration table.
    pub fn mcfg() -> (r: Signature)
        ensures
            r.0@ == seq![0x4Du8, 0x43u8, 0x46u8, 0x47u8],
    {
        let r = Signature([0x4D, 0x43, 0x46, 0x47]);
        proof {
            assert(r.0@ =~= seq![0x4Du8, 0x43u8, 0x46u8, 0x47u8]);
        }
        r
    }

    /// The signature of the fixed ACPI description table.
    pub fn fadt() -> (r: Signature)
        ensures
            r.0@ == seq![0x46u8, 0x41u8, 0x44u8, 0x54u8],
    {
        let r = Signature([0x46, 0x41, 0x44, 0x54]);
        proof {
            assert(r.0@ =~= seq![0x46u8, 0x41u8, 0x44u8, 0x54u8]);
        }
        r
    }

    /// The signature of the multiple APIC description table (`APIC`).
    pub fn madt() -> (r: Signature)
        ensures
            r.0@ == seq![0x41u8, 0x50u8, 0x49u8, 0x43u8],
    {
        let r = Signature([0x41, 0x50, 0x49, 0x43]);
        proof {
            assert(r.0@ =~= seq![0x41u8, 0x50u8, 0x49u8, 0x43u8]);
        }
        r
    }

    /// Whether the two signatures hold the same four bytes.
    pub fn same_as(&self, other: &Signature) -> (r: bool)
        ensures
            r == (self.0@ == other.0@),
    {
        let r = self.0[0] == other.0[0] && self.0[1] == other.0[1] && self.0[2] == other.0[2]
            && self.0[3] == other.0[3];
        proof {
            if r {
                assert(self.0@ =~= other.0@);
            }
        }
        r
    }
}

/// A register address in one of ACPI's address spaces.
#[derive(Clone, Copy, Debug)]
pub struct GenericAddress {
    pub address_space: u8,
    pub bit_width: u8,
    pub bit_offset: u8,
    pub access_size: u8,
    pub address: u64,
}

/// A table of the ACPI namespace that the library knows how to read.
pub trait AcpiTable {
    /// The signature that identifies the table.
    fn signature() -> Signature;

    /// The table's header.
    fn header(&self) -> &SdtHeader;
}

/// The size in bytes of one entry of the root table: 4 for the RSDT
/// (revision 0), 8 for the XSDT.
pub open spec fn rsdt_entry_size(revision: u8) -> int {
    if revision == 0 { 4 } else { 8 }
}

/// The table addresses that a root table (`rsdt`, of the given revision)
/// lists after its header.
pub open spec fn rsdt_entries(revision: u8, rsdt: Seq<u8>) -> Seq<usize> {
    let n = (le32(rsdt, 4) - SDT_HEADER_LEN) / rsdt_entry_size(revision);
    Seq::new(
        n as nat,
        |i: int|
            if revision == 0 {
                le32(rsdt, SDT_HEADER_LEN + 4 * i) as usize
            } else {
                le64(rsdt, SDT_HEADER_LEN + 8 * i) as usize
            },
    )
}

/// Whether `rsdt` holds a whole root table: its header, and as many bytes
/// as the header's length field gives.
pub open spec fn rsdt_well_formed(rsdt: Seq<u8>) -> bool {
    &&& rsdt.len() >= SDT_HEADER_LEN
    &&& le32(rsdt, 4) >= SDT_HEADER_LEN
    &&& le32(rsdt, 4) <= rsdt.len()
}

/// The root system description table (RSDT, or XSDT from revision 1 on)
/// and the revision of the pointer that led to it.
pub struct AcpiTables {
    rsdt: Vec<u8>,
    revision: u8,
}

impl AcpiTables {
    #[verifier::type_invariant]
    spec fn inv(self) -> bool {
        rsdt_well_formed(self.rsdt@)
    }

    /// The bytes of the root table.
    pub closed spec fn rsdt_bytes(&self) -> Seq<u8> {
        self.rsdt@
    }

    /// The revision of the pointer that led to the root table.
    pub closed spec fn spec_revision(&self) -> u8 {
        self.revision
    }

    /// The revision of the pointer that led to the root table.
    pub fn revision(&self) -> (r: u8)
        ensures
            r == self.spec_revision(),
    {
        self.revision
    }

    /// The tables found from a root table, given as the bytes it spans.
    pub fn new(revision: u8, rsdt: Vec<u8>) -> (r: AcpiTables)
        requires
            rsdt_well_formed(rsdt@),
        ensures
            r.spec_revision() == revision,
            r.rsdt_bytes() == rsdt@,
    {
        AcpiTables { rsdt, revision }
    }

    /// The header of the root table.
    pub fn rsdt(&self) -> (r: SdtHeader)
        ensures
            r == SdtHeader::spec_from_bytes(self.rsdt_bytes()),
    {
        proof {
            use_type_invariant(self);
        }
        SdtHeader::from_bytes(self.rsdt.as_slice())
    }

    /// The physical addresses of the tables that the root table lists.
    pub fn table_entries(&self) -> (r: Vec<usize>)
        ensures
            r@ == rsdt_entries(self.spec_revision(), self.rsdt_bytes()),
    {
        proof {
            use_type_invariant(self);
        }
        let b = self.rsdt.as_slice();
        let entry_size: usize = if self.revision == 0 { 4 } else { 8 };
        let length = read_le32(b, 4) as usize;
        let num_entries = (length - 36) / entry_size;
        let ghost want = rsdt_entries(self.revision, b@);
        let mut out: Vec<usize> = Vec::new();
        let mut i: usize = 0;
        while i < num_entries
            invariant
                rsdt_well_formed(b@),
                entry_size as int == rsdt_entry_size(self.revision),
                length == le32(b@, 4),
                num_entries == (length - 36) / entry_size as int,
                want == rsdt_entries(self.revision, b@),
                want.len() == num_entries,
                i <= num_entries,
                out@ == want.take(i as int),
            decreases num_entries - i,
        {
            proof {
                assert(36 + entry_size * (i + 1) <= 36 + entry_size * num_entries) by (nonlinear_arith)
                    requires i < num_entries, entry_size > 0;
                assert(36 + entry_size * num_entries <= length) by (nonlinear_arith)
                    requires num_entries == (length - 36) / entry_size as int, entry_size > 0,
                        length >= 36;
            }
            let entry = if self.revision == 0 {
                read_le32(b, 36 + 4 * i) as usize
            } else {
                read_le64(b, 36 + 8 * i) as usize
            };
            out.push(entry);
            i = i + 1;
            proof {
                assert(out@ =~= want.take(i as int));
            }
        }
        proof {
            assert(out@ =~= want);
        }
        out
    }
}

/// The entries of `addrs` whose table header (at the same position in
/// `headers`) carries `sig`, each with the length of its table, in order.
pub open spec fn matching_tables(addrs: Seq<usize>, headers: Seq<SdtHeader>, sig: Signature) -> Seq<(usize, u32)>
    decreases addrs.len(),
{
    if addrs.len() == 0 {
        Seq::empty()
    } else {
        let rest = matching_tables(addrs.drop_last(), headers, sig);
        let i = addrs.len() - 1;
        if headers[i].signature.0@ == sig.0@ {
            rest.push((addrs[i], headers[i].length))
        } else {
            rest
        }
    }
}

/// Picks, from the tables the root table lists (`addrs`, each with the
/// header read at its address), those that carry `sig`: each comes with
/// the length of the region to map for it.
pub fn find_tables(addrs: &[usize], headers: &[SdtHeader], sig: &Signature) -> (r: Vec<(usize, u32)>)
    requires
        headers@.len() == addrs@.len(),
    ensures
        r@ == matching_tables(addrs@, headers@, *sig),
{
    let mut out: Vec<(usize, u32)> = Vec::new();
    let mut i: usize = 0;
    while i < addrs.len()
        invariant
            headers@.len() == addrs@.len(),
            i <= addrs@.len(),
            out@ == matching_tables(addrs@.take(i as int), headers@, *sig),
        decreases addrs@.len() - i,
    {
        proof {
            assert(addrs@.take(i + 1).drop_last() =~= addrs@.take(i as int));
        }
        if headers[i].signature.same_as(sig) {
            out.push((addrs[i], headers[i].length));
        }
        i = i + 1;
    }
    proof {
        assert(addrs@.take(addrs@.len() as int) =~= addrs@);
    }
    out
}

/// The first of the tables that `find_tables` picks, if any.
pub fn find_table(addrs: &[usize], headers: &[SdtHeader], sig: &Signature) -> (r: Option<(usize, u32)>)
    requires
        headers@.len() == addrs@.len(),
    ensures
        matching_tables(addrs@, headers@, *sig).len() == 0 ==> r.is_none(),
        matching_tables(addrs@, headers@, *sig).len() > 0 ==> r == Some(matching_tables(addrs@, headers@, *sig)[0]),
{
    let all = find_tables(addrs, headers, sig);
    if all.len() == 0 {
        None
    } else {
        Some(all[0])
    }
}

} // verus!
