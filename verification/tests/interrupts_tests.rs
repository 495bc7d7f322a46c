use kernel::allocator::mmio::{mmio_layout, MappedRegion};
use kernel::sys::acpi::sdt::madt::{EntryHeader, LocalApicEntry};
use kernel::sys::interrupts::apic::{ApicInfo, IntSourceOverride, IoApicInfo, Lapic, LapicNmi};
use kernel::sys::interrupts::{
    init_pic_masks, irq_line, needs_eoi, unmask_pic_masks, HandlerTable, InterruptIndex, IrqResult,
};
use kernel::sys::mem::addr::VirtAddr;

fn region(phys: u64) -> MappedRegion {
    MappedRegion::new(&mmio_layout(phys, 0x1000), VirtAddr::new(0xFFFF_9000_0000_0000))
}

fn cpu(processor: u8, apic: u8) -> LocalApicEntry {
    LocalApicEntry {
        header: EntryHeader { entry_type: 0, length: 8 },
        acpi_processor_id: processor,
        apic_id: apic,
        flags: 1,
    }
}

#[test]
fn legacy_vectors() {
    assert_eq!(InterruptIndex::Timer.as_u8(), 32);
    assert_eq!(InterruptIndex::Keyboard.as_u8(), 33);
    assert_eq!(InterruptIndex::Keyboard.as_usize(), 33);
    assert_eq!(irq_line(33), 1);
}

#[test]
fn eoi_after_handler_unless_sent() {
    assert!(needs_eoi(None));
    assert!(needs_eoi(Some(IrqResult::EoiNeeded)));
    assert!(!needs_eoi(Some(IrqResult::EoiSent)));
}

#[test]
fn pic_masks_unmask_one_line() {
    assert_eq!(unmask_pic_masks([0xFF, 0xFF], 1), [0xFD, 0xFF]);
    assert_eq!(unmask_pic_masks([0xFF, 0xFF], 12), [0xFF, 0xEF]);
    assert_eq!(init_pic_masks([0xFF, 0xFF]), [0xFB, 0xFF]);
}

#[test]
fn handler_table_allocates_first_free_slot() {
    let mut t: HandlerTable<u32> = HandlerTable::new();
    t.init_handlers();
    assert_eq!(t.get(223), Some(&None));
    assert_eq!(t.get(224), None);
    t.register_handler(32, 7);
    t.register_handler(33, 8);
    assert_eq!(t.get(0), Some(&Some(7)));
    assert_eq!(t.allocate_interrupt(9), Some(34));
    assert_eq!(t.get(2), Some(&Some(9)));
    assert_eq!(t.allocate_interrupt(10), Some(35));
}

#[test]
fn handler_table_full() {
    let mut t: HandlerTable<u8> = HandlerTable::new();
    assert_eq!(t.allocate_interrupt(1), None);
    t.init_handlers();
    for v in 32..=255u8 {
        t.register_handler(v, 1);
    }
    assert_eq!(t.allocate_interrupt(2), None);
}

#[test]
fn lapic_enable_value() {
    assert_eq!(Lapic::enabled_svr(0), 0x1FF);
    assert_eq!(Lapic::enabled_svr(0x1000), 0x11FF);
}

#[test]
fn io_apic_from_version_register() {
    let io = IoApicInfo::from_version(2, region(0xFEC0_0000), 24, 0x0017_0020);
    assert_eq!(io.id, 2);
    assert_eq!(io.ver, 0x20);
    assert_eq!(io.redirection_cnt, 24);
    assert_eq!(io.gsi_base, 24);
    assert!(io.nmis.is_empty());
}

#[test]
fn io_apic_isa_overrides_in_range() {
    let io = IoApicInfo::from_version(0, region(0xFEC0_0000), 0, 0x0017_0011);
    let iso = [
        IntSourceOverride { bus: 0, bus_irq: 0, gsi: 2, flags: 0 },
        IntSourceOverride { bus: 1, bus_irq: 9, gsi: 9, flags: 0 },
        IntSourceOverride { bus: 0, bus_irq: 9, gsi: 9, flags: 0xD },
        IntSourceOverride { bus: 0, bus_irq: 5, gsi: 40, flags: 0 },
    ];
    assert_eq!(io.isa_overrides(&iso), vec![2, 9]);
}

#[test]
fn lapic_nmi_to_all_processors() {
    let mut info = ApicInfo::with_lapic(Lapic::new(region(0xFEE0_0000)));
    info.add_cpu(&cpu(0, 0));
    info.add_cpu(&cpu(1, 1));
    let nmi = LapicNmi { flags: 5, lint: 1 };
    assert!(info.add_lapic_nmi(0xFF, nmi));
    assert_eq!(info.cpus[0].nmis, vec![nmi]);
    assert_eq!(info.cpus[1].nmis, vec![nmi]);
}

#[test]
fn lapic_nmi_to_one_processor() {
    let mut info = ApicInfo::with_lapic(Lapic::new(region(0xFEE0_0000)));
    info.add_cpu(&cpu(0, 0));
    info.add_cpu(&cpu(3, 1));
    let nmi = LapicNmi { flags: 0, lint: 0 };
    assert!(info.add_lapic_nmi(3, nmi));
    assert!(info.cpus[0].nmis.is_empty());
    assert_eq!(info.cpus[1].nmis, vec![nmi]);
    assert!(!info.add_lapic_nmi(7, nmi));
    assert_eq!(info.cpus[1].nmis.len(), 1);
    assert_eq!(info.cpus[1].apic_id, 1);
}
