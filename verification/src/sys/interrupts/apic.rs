use vstd::prelude::*;
use crate::allocator::mmio::MappedRegion;
use crate::sys::acpi::sdt::madt::LocalApicEntry;

verus! {

/// The offset of the local APIC's spurious interrupt vector register.
pub const LAPIC_SVR_OFFSET: usize = 0xF0;

/// The offset of the local APIC's task priority register.
pub const LAPIC_TPR_OFFSET: usize = 0x80;

/// The offset of the I/O APIC's register select register.
pub const IOREGSEL: usize = 0x00;

/// The offset of the I/O APIC's register window.
pub const IOREGWIN: usize = 0x10;

/// The I/O APIC's identification register.
pub const IO_APIC_ID: u8 = 0x00;

/// The I/O APIC's version register.
pub const IO_APIC_VER: u8 = 0x01;

/// The I/O APIC's arbitration register.
pub const IO_APIC_ARB: u8 = 0x02;

/// A local APIC, by the region its registers are mapped at.
pub struct Lapic {
    region: MappedRegion,
}

impl Lapic {
    /// The region the registers are mapped at.
    pub closed spec fn spec_region(&self) -> MappedRegion {
        self.region
    }

    /// The local APIC whose registers are mapped at `region`.
    pub fn new(region: MappedRegion) -> (r: Self)
        ensures
            r.spec_region() == region,
    {
        Self { region }
    }

    /// The region the registers are mapped at.
    pub fn region(&self) -> (r: &MappedRegion)
        ensures
            *r == self.spec_region(),
    {
        &self.region
    }

    /// The spurious interrupt vector register value that enables the APIC:
    /// `svr` with the software-enable bit (8) and the spurious vector 0xFF.
    pub fn enabled_svr(svr: u32) -> (r: u32)
        ensures
            r == svr | (1u32 << 8u32) | 0xFF,
    {
        svr | (1 << 8) | 0xFF
    }
}

/// An override of how an ISA interrupt maps to a global system interrupt.
#[derive(Clone, Copy, Debug, PartialEq, Eq, Structural)]
pub struct IntSourceOverride {
    pub bus: u8,
    pub bus_irq: u8,
    pub gsi: u32,
    pub flags: u16,
}

/// A non-maskable interrupt wired to a local APIC input.
#[derive(Clone, Copy, Debug, PartialEq, Eq, Structural)]
pub struct LapicNmi {
    pub flags: u16,
    pub lint: u8,
}

/// A non-maskable interrupt source of an I/O APIC.
#[derive(Clone, Copy, Debug, PartialEq, Eq, Structural)]
pub struct IoApicNmi {
    pub nmi_src: u8,
    pub reserved: u8,
    pub flags: u16,
    pub gsi: u32,
}

/// A processor: its ids, flags and the NMIs wired to its local APIC.
pub struct CpuInfo {
    pub processor_id: u8,
    pub apic_id: u8,
    pub flags: u32,
    pub nmis: Vec<LapicNmi>,
}

/// An I/O APIC: its id and registers, the first global system interrupt it
/// serves, its version and how many redirection entries it has.
pub struct IoApicInfo {
    pub id: u8,
    pub region: MappedRegion,
    pub gsi_base: u32,
    pub ver: u8,
    pub redirection_cnt: u8,
    pub nmis: Vec<IoApicNmi>,
}

/// The indices of the redirection entries that the overrides of ISA
/// interrupts (bus 0) among `iso` call for: of those whose global system
/// interrupt lies in `[base, end)`, its distance from `base`, in order.
pub open spec fn isa_override_indices(iso: Seq<IntSourceOverride>, base: u32, end: int) -> Seq<u8>
    decreases iso.len(),
{
    if iso.len() == 0 {
        Seq::empty()
    } else {
        let rest = isa_override_indices(iso.drop_last(), base, end);
        let o = iso.last();
        if o.bus == 0 && base <= o.gsi && o.gsi < end {
            rest.push((o.gsi - base) as u8)
        } else {
            rest
        }
    }
}

impl IoApicInfo {
    /// The I/O APIC of id `id` mapped at `region`, serving from `gsi_base`
    /// on, whose version register reads `entry_cnt`: the version is its low
    /// byte, and the number of redirection entries one more than its third
    /// byte.
    pub fn from_version(id: u8, region: MappedRegion, gsi_base: u32, entry_cnt: u32) -> (r: Self)
        requires
            ((entry_cnt >> 16u32) as u8) < 255,
        ensures
            r.id == id,
            r.region == region,
            r.gsi_base == gsi_base,
            r.ver == entry_cnt as u8,
            r.redirection_cnt == ((entry_cnt >> 16u32) as u8) + 1,
            r.nmis@.len() == 0,
    {
        let ver = entry_cnt as u8;
        let redirection_cnt = (entry_cnt >> 16) as u8 + 1;
        IoApicInfo { id, region, gsi_base, redirection_cnt, ver, nmis: Vec::new() }
    }

    /// The redirection entries to write for the overrides of ISA
    /// interrupts that fall in this I/O APIC's range.
    pub fn isa_overrides(&self, iso: &[IntSourceOverride]) -> (r: Vec<u8>)
        requires
            self.gsi_base + self.redirection_cnt <= u32::MAX,
        ensures
            r@ == isa_override_indices(iso@, self.gsi_base, self.gsi_base + self.redirection_cnt),
    {
        let gsi_base = self.gsi_base;
        let gsi_end = gsi_base + self.redirection_cnt as u32;
        let mut out: Vec<u8> = Vec::new();
        let mut i: usize = 0;
        while i < iso.len()
            invariant
                gsi_end == gsi_base + self.redirection_cnt,
                gsi_base == self.gsi_base,
                i <= iso@.len(),
                out@ == isa_override_indices(iso@.take(i as int), gsi_base, gsi_end as int),
            decreases iso@.len() - i,
        {
            proof {
                assert(iso@.take(i + 1).drop_last() =~= iso@.take(i as int));
            }
            let o = iso[i];
            if o.bus == 0 && o.gsi >= gsi_base && o.gsi < gsi_end {
                out.push((o.gsi - gsi_base) as u8);
            }
            i = i + 1;
        }
        proof {
            assert(iso@.take(iso@.len() as int) =~= iso@);
        }
        out
    }

    /// Sets up the redirection entries for the overrides of ISA interrupts
    /// that fall in this I/O APIC's range: one write of a redirection entry
    /// each, and writing one leaves the I/O APIC's description as it was.
    pub fn init(&mut self, iso: &[IntSourceOverride])
        requires
            old(self).gsi_base + old(self).redirection_cnt <= u32::MAX,
        ensures
            *final(self) == *old(self),
    {
        let indices = self.isa_overrides(iso);
        let mut i: usize = 0;
        while i < indices.len()
            invariant
                i <= indices@.len(),
                *self == *old(self),
            decreases indices@.len() - i,
        {
            self.write_redirect_entry(indices[i]);
            i = i + 1;
        }
    }

    /// Writes redirection entry `index`. Not written yet: it does nothing.
    pub fn write_redirect_entry(&mut self, index: u8)
        ensures
            *final(self) == *old(self),
    {
    }

    /// Reads a redirection entry. Not written yet: it does nothing.
    pub fn read_redirect_entry(&mut self)
        ensures
            *final(self) == *old(self),
    {
    }
}

/// The index of the first processor of `cpus` with ACPI processor id `id`.
pub open spec fn first_cpu(cpus: Seq<CpuInfo>, id: u8) -> Option<int>
    decreases cpus.len(),
{
    if cpus.len() == 0 {
        None
    } else {
        match first_cpu(cpus.drop_last(), id) {
            Some(i) => Some(i),
            None => if cpus.last().processor_id == id {
                Some(cpus.len() - 1)
            } else {
                None
            },
        }
    }
}

/// What the MADT says of the interrupt hardware: the local APIC, the I/O
/// APICs, the interrupt source overrides and the processors.
pub struct ApicInfo {
    pub lapic: Lapic,
    pub ioapics: Vec<IoApicInfo>,
    pub iso: Vec<IntSourceOverride>,
    pub cpus: Vec<CpuInfo>,
}

impl ApicInfo {
    /// The description with the local APIC `lapic` and nothing else yet.
    pub fn with_lapic(lapic: Lapic) -> (r: Self)
        ensures
            r.lapic == lapic,
            r.ioapics@.len() == 0,
            r.iso@.len() == 0,
            r.cpus@.len() == 0,
    {
        ApicInfo { lapic, ioapics: Vec::new(), iso: Vec::new(), cpus: Vec::new() }
    }

    /// Adds the processor of a local APIC entry, with no NMIs yet.
    pub fn add_cpu(&mut self, cpu: &LocalApicEntry)
        ensures
            final(self).cpus@.len() == old(self).cpus@.len() + 1,
            forall|i: int| 0 <= i < old(self).cpus@.len() ==> #[trigger] final(self).cpus@[i] == old(self).cpus@[i],
            ({
                let c = final(self).cpus@.last();
                &&& c.processor_id == cpu.acpi_processor_id
                &&& c.apic_id == cpu.apic_id
                &&& c.flags == cpu.flags
                &&& c.nmis@.len() == 0
            }),
            final(self).lapic == old(self).lapic,
            final(self).ioapics@ == old(self).ioapics@,
            final(self).iso@ == old(self).iso@,
    {
        self.cpus.push(
            CpuInfo {
                processor_id: cpu.acpi_processor_id,
                apic_id: cpu.apic_id,
                flags: cpu.flags,
                nmis: Vec::new(),
            },
        );
    }

    /// Wires a local APIC NMI: to every processor when `processor_id` is
    /// 0xFF, else to the first processor of that id. Whether a processor
    /// got it.
    pub fn add_lapic_nmi(&mut self, processor_id: u8, nmi: LapicNmi) -> (r: bool)
        ensures
            final(self).cpus@.len() == old(self).cpus@.len(),
            forall|i: int|
                0 <= i < old(self).cpus@.len() ==> {
                    let (a, b) = (#[trigger] final(self).cpus@[i], old(self).cpus@[i]);
                    &&& a.processor_id == b.processor_id
                    &&& a.apic_id == b.apic_id
                    &&& a.flags == b.flags
                    &&& a.nmis@ == if processor_id == 0xFF || first_cpu(old(self).cpus@, processor_id)
                        == Some(i) {
                        b.nmis@.push(nmi)
                    } else {
                        b.nmis@
                    }
                },
            r == (processor_id == 0xFF || first_cpu(old(self).cpus@, processor_id) is Some),
            final(self).lapic == old(self).lapic,
            final(self).ioapics@ == old(self).ioapics@,
            final(self).iso@ == old(self).iso@,
    {
        if processor_id == 0xFF {
            let mut i: usize = 0;
            while i < self.cpus.len()
                invariant
                    processor_id == 0xFF,
                    i <= self.cpus@.len(),
                    self.cpus@.len() == old(self).cpus@.len(),
                    forall|j: int|
                        0 <= j < old(self).cpus@.len() ==> {
                            let (a, b) = (#[trigger] self.cpus@[j], old(self).cpus@[j]);
                            &&& a.processor_id == b.processor_id
                            &&& a.apic_id == b.apic_id
                            &&& a.flags == b.flags
                            &&& a.nmis@ == if j < i {
                                b.nmis@.push(nmi)
                            } else {
                                b.nmis@
                            }
                        },
                    self.lapic == old(self).lapic,
                    self.ioapics@ == old(self).ioapics@,
                    self.iso@ == old(self).iso@,
                decreases self.cpus@.len() - i,
            {
                self.cpus[i].nmis.push(nmi);
                i = i + 1;
            }
            return true;
        }
        let mut i: usize = 0;
        while i < self.cpus.len()
            invariant
                processor_id != 0xFF,
                i <= self.cpus@.len(),
                self.cpus@ == old(self).cpus@,
                forall|j: int| 0 <= j < i ==> #[trigger] self.cpus@[j].processor_id != processor_id,
                self.lapic == old(self).lapic,
                self.ioapics@ == old(self).ioapics@,
                self.iso@ == old(self).iso@,
            decreases self.cpus@.len() - i,
        {
            if self.cpus[i].processor_id == processor_id {
                proof {
                    lemma_first_cpu_at(old(self).cpus@, processor_id, i as int);
                }
                self.cpus[i].nmis.push(nmi);
                return true;
            }
            i = i + 1;
        }
        proof {
            lemma_first_cpu_none(old(self).cpus@, processor_id);
        }
        false
    }
}

/// The first processor of id `id` is the one at `i` when none before it
/// has that id.
proof fn lemma_first_cpu_at(cpus: Seq<CpuInfo>, id: u8, i: int)
    requires
        0 <= i < cpus.len(),
        cpus[i].processor_id == id,
        forall|j: int| 0 <= j < i ==> #[trigger] cpus[j].processor_id != id,
    ensures
        first_cpu(cpus, id) == Some(i),
    decreases cpus.len(),
{
    if i < cpus.len() - 1 {
        lemma_first_cpu_at(cpus.drop_last(), id, i);
    } else {
        lemma_first_cpu_none(cpus.drop_last(), id);
    }
}

/// No processor is found when none has the id.
proof fn lemma_first_cpu_none(cpus: Seq<CpuInfo>, id: u8)
    requires
        forall|j: int| 0 <= j < cpus.len() ==> #[trigger] cpus[j].processor_id != id,
    ensures
        first_cpu(cpus, id) is None,
    decreases cpus.len(),
{
    if cpus.len() > 0 {
        lemma_first_cpu_none(cpus.drop_last(), id);
    }
}

} // verus!
