use vstd::prelude::*;
use crate::sys::acpi::sdt::SdtHeader;
use crate::util::le::{le32, read_le32};

verus! {

/// The size in bytes of the fixed part of the MADT: its header, the local
/// APIC address and the flags.
pub const MADT_LEN: usize = 44;

/// The kinds of entries the MADT lists, by their type byte (0 to 0x17).
#[derive(Clone, Copy, Debug, PartialEq, Eq, Structural)]
pub enum MadtEntryKind {
    LocalApic,
    IoApic,
    InterruptSourceOverride,
    NmiSource,
    LocalApicNmi,
    LocalApicAddressOverride,
    IoSapic,
    LocalSapic,
    PlatformInterruptSources,
    Local2Apic,
    Local2ApicNvmi,
    GicCpu,
    GicDist,
    GicMsi,
    GicRedist,
    GicIts,
    MultiprocessorWakeup,
    CorePic,
    LioPic,
    HtPic,
    EioPic,
    MsiPic,
    BioPic,
    LpcPic,
}

/// The header of every MADT entry.
#[derive(Clone, Copy, Debug)]
pub struct EntryHeader {
    pub entry_type: u8,
    pub length: u8,
}

/// A processor and its local APIC.
#[derive(Clone, Copy, Debug)]
pub struct LocalApicEntry {
    pub header: EntryHeader,
    pub acpi_processor_id: u8,
    pub apic_id: u8,
    pub flags: u32,
}

/// An I/O APIC: its id, the address of its registers and the first global
/// system interrupt it serves.
#[derive(Clone, Copy, Debug)]
pub struct IoApicEntry {
    pub header: EntryHeader,
    pub io_apic_id: u8,
    pub reserved: u8,
    pub io_apic_addr: u64,
    pub gsi_base: u64,
}

/// An entry of the MADT. Only local APICs and I/O APICs carry their
/// contents; the entry walk hands out no other kind.
#[derive(Clone, Copy, Debug)]
pub enum MadtEntry {
    LocalApic(LocalApicEntry),
    IoApic(IoApicEntry),
    InterruptSourceOverride,
    NmiSource,
    LocalApicNmi,
    LocalApicAddressOverride,
    Local2Apic,
    Local2ApicNmi,
    GicCpu,
    GicDist,
    GicMsi,
    GicRedist,
    GicIts,
    MultiprocessorWakeup,
    CorePic,
    LioPic,
    HtPic,
    EioPic,
    MsiPic,
    BioPic,
    LpcPic,
}

/// The local APIC entry laid out at `b[at..at + 8]`.
pub open spec fn local_apic_at(b: Seq<u8>, at: int) -> LocalApicEntry {
    LocalApicEntry {
        header: EntryHeader { entry_type: b[at], length: b[at + 1] },
        acpi_processor_id: b[at + 2],
        apic_id: b[at + 3],
        flags: le32(b, at + 4) as u32,
    }
}

/// The I/O APIC entry laid out at `b[at..at + 12]`: the 32-bit address and
/// base of the table entry, widened.
pub open spec fn io_apic_at(b: Seq<u8>, at: int) -> IoApicEntry {
    IoApicEntry {
        header: EntryHeader { entry_type: b[at], length: b[at + 1] },
        io_apic_id: b[at + 2],
        reserved: b[at + 3],
        io_apic_addr: le32(b, at + 4) as u64,
        gsi_base: le32(b, at + 8) as u64,
    }
}

/// The entry that the walk hands out for the entry at `b[at..]`, if any.
pub open spec fn entry_at(b: Seq<u8>, at: int) -> Option<MadtEntry> {
    if b[at] == 0 {
        Some(MadtEntry::LocalApic(local_apic_at(b, at)))
    } else if b[at] == 1 {
        Some(MadtEntry::IoApic(io_apic_at(b, at)))
    } else {
        None
    }
}

/// Whether `b` holds all the bytes that reading the entry at `at` takes.
pub open spec fn entry_fits(b: Seq<u8>, at: int) -> bool {
    &&& b[at] == 0 ==> at + 8 <= b.len()
    &&& b[at] == 1 ==> at + 12 <= b.len()
}

/// Whether walking the entries from `pos` to `end` ends, and reads only
/// bytes of `b`: every entry it reaches has its header in `b` and a length
/// above 0, and every entry it hands out lies in `b`.
pub open spec fn walk_ok(b: Seq<u8>, pos: int, end: int) -> bool
    decreases end - pos,
{
    if pos >= end {
        true
    } else if pos < 0 || pos + 2 > b.len() || b[pos + 1] == 0 {
        false
    } else if b[pos + 1] > end - pos {
        true
    } else {
        entry_fits(b, pos) && walk_ok(b, pos + b[pos + 1], end)
    }
}

/// The entries handed out by walking from `pos` to `end`: the walk steps
/// over each entry by its length, keeps the local and I/O APICs, and stops
/// at an entry longer than what is left.
pub open spec fn madt_walk(b: Seq<u8>, pos: int, end: int) -> Seq<MadtEntry>
    decreases end - pos,
{
    if pos >= end || pos < 0 || pos + 2 > b.len() || b[pos + 1] == 0 || b[pos + 1] > end - pos {
        Seq::empty()
    } else {
        let rest = madt_walk(b, pos + b[pos + 1], end);
        match entry_at(b, pos) {
            Some(e) => seq![e] + rest,
            None => rest,
        }
    }
}

impl MadtEntryKind {
    /// The kind's type byte.
    pub open spec fn code(self) -> u8 {
        match self {
            MadtEntryKind::LocalApic => 0,
            MadtEntryKind::IoApic => 1,
            MadtEntryKind::InterruptSourceOverride => 2,
            MadtEntryKind::NmiSource => 3,
            MadtEntryKind::LocalApicNmi => 4,
            MadtEntryKind::LocalApicAddressOverride => 5,
            MadtEntryKind::IoSapic => 6,
            MadtEntryKind::LocalSapic => 7,
            MadtEntryKind::PlatformInterruptSources => 8,
            MadtEntryKind::Local2Apic => 9,
            MadtEntryKind::Local2ApicNvmi => 0xA,
            MadtEntryKind::GicCpu => 0xB,
            MadtEntryKind::GicDist => 0xC,
            MadtEntryKind::GicMsi => 0xD,
            MadtEntryKind::GicRedist => 0xE,
            MadtEntryKind::GicIts => 0xF,
            MadtEntryKind::MultiprocessorWakeup => 0x10,
            MadtEntryKind::CorePic => 0x11,
            MadtEntryKind::LioPic => 0x12,
            MadtEntryKind::HtPic => 0x13,
            MadtEntryKind::EioPic => 0x14,
            MadtEntryKind::MsiPic => 0x15,
            MadtEntryKind::BioPic => 0x16,
            MadtEntryKind::LpcPic => 0x17,
        }
    }

    /// The kind of type byte `raw`, or `Err(raw)` when there is none.
    pub fn try_from_primitive(raw: u8) -> (r: Result<MadtEntryKind, u8>)
        ensures
            match r {
                Ok(k) => k.code() == raw,
                Err(e) => e == raw && raw > 0x17,
            },
    {
        match raw {
            0 => Ok(MadtEntryKind::LocalApic),
            1 => Ok(MadtEntryKind::IoApic),
            2 => Ok(MadtEntryKind::InterruptSourceOverride),
            3 => Ok(MadtEntryKind::NmiSource),
            4 => Ok(MadtEntryKind::LocalApicNmi),
            5 => Ok(MadtEntryKind::LocalApicAddressOverride),
            6 => Ok(MadtEntryKind::IoSapic),
            7 => Ok(MadtEntryKind::LocalSapic),
            8 => Ok(MadtEntryKind::PlatformInterruptSources),
            9 => Ok(MadtEntryKind::Local2Apic),
            0xA => Ok(MadtEntryKind::Local2ApicNvmi),
            0xB => Ok(MadtEntryKind::GicCpu),
            0xC => Ok(MadtEntryKind::GicDist),
            0xD => Ok(MadtEntryKind::GicMsi),
            0xE => Ok(MadtEntryKind::GicRedist),
            0xF => Ok(MadtEntryKind::GicIts),
            0x10 => Ok(MadtEntryKind::MultiprocessorWakeup),
            0x11 => Ok(MadtEntryKind::CorePic),
            0x12 => Ok(MadtEntryKind::LioPic),
            0x13 => Ok(MadtEntryKind::HtPic),
            0x14 => Ok(MadtEntryKind::EioPic),
            0x15 => Ok(MadtEntryKind::MsiPic),
            0x16 => Ok(MadtEntryKind::BioPic),
            0x17 => Ok(MadtEntryKind::LpcPic),
            _ => Err(raw),
        }
    }

    /// The entry of this kind laid out at `b[at..]`, for the two kinds whose
    /// contents are read (local APIC, I/O APIC); `None` for the others.
    pub fn to_entry(&self, b: &[u8], at: usize) -> (r: Option<MadtEntry>)
        requires
            at < b@.len(),
            b@[at as int] == self.code(),
            entry_fits(b@, at as int),
        ensures
            r == entry_at(b@, at as int),
    {
        match self {
            MadtEntryKind::LocalApic => Some(
                MadtEntry::LocalApic(
                    LocalApicEntry {
                        header: EntryHeader { entry_type: b[at], length: b[at + 1] },
                        acpi_processor_id: b[at + 2],
                        apic_id: b[at + 3],
                        flags: read_le32(b, at + 4),
                    },
                ),
            ),
            MadtEntryKind::IoApic => Some(
                MadtEntry::IoApic(
                    IoApicEntry {
                        header: EntryHeader { entry_type: b[at], length: b[at + 1] },
                        io_apic_id: b[at + 2],
                        reserved: b[at + 3],
                        io_apic_addr: read_le32(b, at + 4) as u64,
                        gsi_base: read_le32(b, at + 8) as u64,
                    },
                ),
            ),
            _ => None,
        }
    }
}

/// The multiple APIC description table.
pub struct Madt {
    pub header: SdtHeader,
    pub apic_addr: u32,
    pub flags: u32,
    /// The bytes of the whole table.
    pub raw: Vec<u8>,
}

impl Madt {
    /// The bytes of the table.
    pub open spec fn bytes(&self) -> Seq<u8> {
        self.raw@
    }

    /// The table laid out in `table`, which spans it.
    pub fn from_bytes(table: Vec<u8>) -> (r: Madt)
        requires
            table@.len() >= MADT_LEN,
        ensures
            r.bytes() == table@,
            r.header == SdtHeader::spec_from_bytes(table@),
            r.apic_addr == le32(table@, 36),
            r.flags == le32(table@, 40),
    {
        let t = table.as_slice();
        let header = SdtHeader::from_bytes(t);
        let apic_addr = read_le32(t, 36);
        let flags = read_le32(t, 40);
        Madt { header, apic_addr, flags, raw: table }
    }

    /// Whether walking the entries ends and reads only bytes of the table,
    /// so that `entries` may be called: every entry it reaches has its
    /// header in the table and a length above 0, and every local or I/O APIC
    /// entry lies in the table.
    pub fn entries_well_formed(&self) -> (r: bool)
        requires
            MADT_LEN <= self.header.length <= self.bytes().len(),
        ensures
            r == walk_ok(self.bytes(), MADT_LEN as int, self.header.length as int),
    {
        let t = self.raw.as_slice();
        let end = self.header.length as usize;
        let mut pos: usize = MADT_LEN;
        while pos < end
            invariant
                MADT_LEN <= pos,
                end <= t@.len(),
                t@ == self.bytes(),
                end == self.header.length,
                walk_ok(t@, pos as int, end as int) == walk_ok(t@, MADT_LEN as int, end as int),
            decreases end - pos,
        {
            if t.len() - pos < 2 || t[pos + 1] == 0 {
                return false;
            }
            let length = t[pos + 1] as usize;
            if length > end - pos {
                return true;
            }
            let fits = if t[pos] == 0 {
                t.len() - pos >= 8
            } else if t[pos] == 1 {
                t.len() - pos >= 12
            } else {
                true
            };
            if !fits {
                return false;
            }
            pos = pos + length;
        }
        true
    }

    /// A walk over the entries of the table.
    pub fn entry_iter(&self) -> (r: MadtEntryIter<'_>)
        requires
            MADT_LEN <= self.header.length <= self.bytes().len(),
            walk_ok(self.bytes(), MADT_LEN as int, self.header.length as int),
        ensures
            r.rest() == madt_walk(self.bytes(), MADT_LEN as int, self.header.length as int),
    {
        MadtEntryIter {
            bytes: self.raw.as_slice(),
            pos: MADT_LEN,
            remaining_length: self.header.length - MADT_LEN as u32,
        }
    }

    /// The local APIC and I/O APIC entries of the table, in order.
    pub fn entries(&self) -> (r: Vec<MadtEntry>)
        requires
            MADT_LEN <= self.header.length <= self.bytes().len(),
            walk_ok(self.bytes(), MADT_LEN as int, self.header.length as int),
        ensures
            r@ == madt_walk(self.bytes(), MADT_LEN as int, self.header.length as int),
    {
        let mut it = self.entry_iter();
        let ghost all = it.rest();
        let mut out: Vec<MadtEntry> = Vec::new();
        loop
            invariant
                out@ + it.rest() == all,
            ensures
                out@ == all,
            decreases it.remaining(),
        {
            match it.next() {
                Some(e) => {
                    proof {
                        assert(out@.push(e) + it.rest() =~= out@ + (seq![e] + it.rest()));
                    }
                    out.push(e);
                },
                None => {
                    proof {
                        assert(out@ =~= out@ + Seq::<MadtEntry>::empty());
                    }
                    break;
                },
            }
        }
        out
    }
}

/// A walk over the entries of a table: the table's bytes, where the next
/// entry starts, and how many bytes of the entries are left.
pub struct MadtEntryIter<'a> {
    bytes: &'a [u8],
    pos: usize,
    remaining_length: u32,
}

impl<'a> MadtEntryIter<'a> {
    /// The walk stays in the table, and walking the rest ends.
    #[verifier::type_invariant]
    closed spec fn well_formed(&self) -> bool {
        &&& self.pos + self.remaining_length <= self.bytes@.len()
        &&& walk_ok(self.bytes@, self.pos as int, self.pos + self.remaining_length)
    }

    /// The entries the walk has still to hand out.
    pub closed spec fn rest(&self) -> Seq<MadtEntry> {
        madt_walk(self.bytes@, self.pos as int, self.pos + self.remaining_length)
    }

    /// How many bytes of the entries are left.
    pub closed spec fn remaining(&self) -> nat {
        self.remaining_length as nat
    }

    /// The next local APIC or I/O APIC entry, stepping over the entries of
    /// other kinds; `None` at the end of the entries or at an entry longer
    /// than what is left, where the walk then stays.
    pub fn next(&mut self) -> (r: Option<MadtEntry>)
        ensures
            old(self).rest() == (match r {
                Some(e) => seq![e] + final(self).rest(),
                None => Seq::<MadtEntry>::empty(),
            }),
            r is Some ==> final(self).remaining() < old(self).remaining(),
            r is None ==> final(self).rest() == Seq::<MadtEntry>::empty(),
    {
        proof {
            use_type_invariant(&*self);
        }
        while self.remaining_length > 0
            invariant
                self.rest() == old(self).rest(),
                self.remaining() <= old(self).remaining(),
            decreases self.remaining_length,
        {
            proof {
                use_type_invariant(&*self);
            }
            let t = self.bytes;
            let pos = self.pos;
            let ghost end = pos + self.remaining_length;
            proof {
                // The length of the slice, a usize, bounds the indices read below.
                assert(t@.len() == t.len());
            }
            let length = t[pos + 1];
            if self.remaining_length < length as u32 {
                return None;
            }
            let entry_type = t[pos];
            let next_pos = pos + length as usize;
            proof {
                assert(madt_walk(t@, pos as int, end as int) == match entry_at(t@, pos as int) {
                    Some(e) => seq![e] + madt_walk(t@, next_pos as int, end as int),
                    None => madt_walk(t@, next_pos as int, end as int),
                });
            }
            *self = MadtEntryIter {
                bytes: t,
                pos: next_pos,
                remaining_length: self.remaining_length - length as u32,
            };
            match MadtEntryKind::try_from_primitive(entry_type) {
                Ok(kind) => {
                    match kind.to_entry(t, pos) {
                        Some(e) => {
                            return Some(e);
                        },
                        None => {},
                    }
                },
                Err(_) => {
                    proof {
                        assert(entry_at(t@, pos as int) is None);
                    }
                },
            }
        }
        proof {
            assert(self.rest() =~= Seq::<MadtEntry>::empty());
        }
        None
    }
}

} // verus!
