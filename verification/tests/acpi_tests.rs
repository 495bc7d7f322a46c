use kernel::sys::acpi::rsdp::Rsdp;
use kernel::sys::acpi::sdt::madt::{Madt, MadtEntry, MadtEntryKind};
use kernel::sys::acpi::sdt::mcfg::Mcfg;
use kernel::sys::acpi::sdt::SdtHeader;
use kernel::sys::acpi::{find_table, find_tables, AcpiTable, AcpiTables, Signature};

fn le32(v: u32) -> [u8; 4] {
    v.to_le_bytes()
}

/// A 36-byte table header with the given signature and length.
fn header(sig: &[u8; 4], length: u32) -> Vec<u8> {
    let mut h = Vec::new();
    h.extend_from_slice(sig);
    h.extend_from_slice(&le32(length));
    h.push(1); // revision
    h.push(0); // checksum
    h.extend_from_slice(b"OEMID ");
    h.extend_from_slice(b"TABLEID ");
    h.extend_from_slice(&le32(7));
    h.extend_from_slice(&le32(0x4352_4541));
    h.extend_from_slice(&le32(3));
    h
}

fn rsdp_bytes(revision: u8, rsdt: u32, length: u32, xsdt: u64) -> Vec<u8> {
    let mut b = Vec::new();
    b.extend_from_slice(b"RSD PTR ");
    b.push(0); // checksum, fixed below
    b.extend_from_slice(b"BOCHS ");
    b.push(revision);
    b.extend_from_slice(&le32(rsdt));
    b.extend_from_slice(&le32(length));
    b.extend_from_slice(&xsdt.to_le_bytes());
    b.push(0);
    b.extend_from_slice(&[0, 0, 0]);
    let covered = if revision > 0 { length as usize } else { 20 };
    let sum: u8 = b[..covered].iter().fold(0u8, |s, &x| s.wrapping_add(x));
    b[8] = 0u8.wrapping_sub(sum);
    b
}

#[test]
fn rsdp_round_trips_through_bytes() {
    let b = rsdp_bytes(0, 0x000E_0000, 0, 0);
    let r = Rsdp::from_bytes(&b);
    assert_eq!(r.to_bytes(), b);
    assert_eq!(r.revision, 0);
    assert_eq!(r.rsdt_addr, 0x000E_0000);
}

#[test]
fn rsdp_validates_v1_pointer() {
    let r = Rsdp::from_bytes(&rsdp_bytes(0, 0x000E_0000, 0, 0));
    assert_eq!(r.validate(), Ok(()));
    assert_eq!(r.address(), 0x000E_0000);
}

#[test]
fn rsdp_validates_v2_pointer() {
    let r = Rsdp::from_bytes(&rsdp_bytes(2, 0x000E_0000, 36, 0x7FE1_4000));
    assert_eq!(r.validate(), Ok(()));
    assert_eq!(r.address(), 0x7FE1_4000);
}

#[test]
fn rsdp_rejects_bad_signature() {
    let mut b = rsdp_bytes(0, 0x000E_0000, 0, 0);
    b[0] = b'X';
    let r = Rsdp::from_bytes(&b);
    assert_eq!(r.validate(), Err("Detected incorrect RSDP signature".to_string()));
}

#[test]
fn rsdp_rejects_bad_checksum() {
    let mut b = rsdp_bytes(0, 0x000E_0000, 0, 0);
    b[8] = b[8].wrapping_add(1);
    let r = Rsdp::from_bytes(&b);
    assert_eq!(r.validate(), Err("Found invalid RSDP checksum".to_string()));
}

#[test]
fn sdt_header_fields() {
    let h = SdtHeader::from_bytes(&header(b"APIC", 0x78));
    assert!(h.signature.same_as(&Signature::madt()));
    assert!(!h.signature.same_as(&Signature::mcfg()));
    assert_eq!(h.length, 0x78);
    assert_eq!(h.revision, 1);
    assert_eq!(h.oem_revision, 7);
    assert_eq!(h.creator_id, 0x4352_4541);
    assert_eq!(h.creator_revision, 3);
    assert_eq!(&h.oem_id, b"OEMID ");
}

#[test]
fn rsdt_entries_are_32_bit() {
    let mut t = header(b"RSDT", 36 + 8);
    t.extend_from_slice(&le32(0x1000));
    t.extend_from_slice(&le32(0x2000));
    let tables = AcpiTables::new(0, t);
    assert_eq!(tables.revision(), 0);
    assert_eq!(tables.rsdt().length, 44);
    assert_eq!(tables.table_entries(), vec![0x1000, 0x2000]);
}

#[test]
fn xsdt_entries_are_64_bit() {
    let mut t = header(b"XSDT", 36 + 16 + 4);
    t.extend_from_slice(&0x1_0000_1000u64.to_le_bytes());
    t.extend_from_slice(&0x2000u64.to_le_bytes());
    t.extend_from_slice(&[0xAA; 4]);
    let tables = AcpiTables::new(2, t);
    assert_eq!(tables.table_entries(), vec![0x1_0000_1000usize, 0x2000]);
}

#[test]
fn find_tables_picks_matching_signatures() {
    let addrs = [0x1000usize, 0x2000, 0x3000];
    let headers = [
        SdtHeader::from_bytes(&header(b"FACP", 0x100)),
        SdtHeader::from_bytes(&header(b"APIC", 0x78)),
        SdtHeader::from_bytes(&header(b"APIC", 0x80)),
    ];
    assert_eq!(find_tables(&addrs, &headers, &Signature::madt()), vec![(0x2000, 0x78), (0x3000, 0x80)]);
    assert_eq!(find_table(&addrs, &headers, &Signature::madt()), Some((0x2000, 0x78)));
    assert_eq!(find_table(&addrs, &headers, &Signature::mcfg()), None);
}

fn madt_bytes(entries: &[u8], length_override: Option<u32>) -> Vec<u8> {
    let length = length_override.unwrap_or(44 + entries.len() as u32);
    let mut t = header(b"APIC", length);
    t.extend_from_slice(&le32(0xFEE0_0000));
    t.extend_from_slice(&le32(1));
    t.extend_from_slice(entries);
    t
}

#[test]
fn madt_entries_keep_local_and_io_apics() {
    let mut e = Vec::new();
    e.extend_from_slice(&[0, 8, 0, 0, 1, 0, 0, 0]); // local APIC: processor 0, APIC 0
    e.extend_from_slice(&[2, 10, 0, 0, 2, 0, 0, 0, 0, 0]); // interrupt source override
    e.extend_from_slice(&[1, 12, 4, 0]); // I/O APIC 4
    e.extend_from_slice(&le32(0xFEC0_0000));
    e.extend_from_slice(&le32(0));
    e.extend_from_slice(&[0, 8, 1, 1, 1, 0, 0, 0]); // local APIC: processor 1, APIC 1
    let madt = Madt::from_bytes(madt_bytes(&e, None));
    assert_eq!(madt.apic_addr, 0xFEE0_0000);
    assert_eq!(madt.flags, 1);
    let entries = madt.entries();
    assert_eq!(entries.len(), 3);
    match entries[0] {
        MadtEntry::LocalApic(c) => {
            assert_eq!(c.acpi_processor_id, 0);
            assert_eq!(c.apic_id, 0);
            assert_eq!(c.flags, 1);
        }
        _ => panic!("expected a local APIC"),
    }
    match entries[1] {
        MadtEntry::IoApic(io) => {
            assert_eq!(io.io_apic_id, 4);
            assert_eq!(io.io_apic_addr, 0xFEC0_0000);
            assert_eq!(io.gsi_base, 0);
        }
        _ => panic!("expected an I/O APIC"),
    }
    match entries[2] {
        MadtEntry::LocalApic(c) => assert_eq!(c.apic_id, 1),
        _ => panic!("expected a local APIC"),
    }
}

#[test]
fn madt_walk_stops_at_entry_longer_than_rest() {
    let mut e = Vec::new();
    e.extend_from_slice(&[0, 8, 0, 0, 1, 0, 0, 0]);
    e.extend_from_slice(&[0, 8, 1, 1, 1, 0, 0, 0]);
    // The table's length leaves room for the first entry and 4 bytes.
    let madt = Madt::from_bytes(madt_bytes(&e, Some(44 + 12)));
    assert_eq!(madt.entries().len(), 1);
}

#[test]
fn madt_entry_kinds() {
    assert_eq!(MadtEntryKind::try_from_primitive(0), Ok(MadtEntryKind::LocalApic));
    assert_eq!(MadtEntryKind::try_from_primitive(0x17), Ok(MadtEntryKind::LpcPic));
    assert_eq!(MadtEntryKind::try_from_primitive(0x18), Err(0x18));
    let b = [5u8, 6, 0, 0, 0, 0];
    assert!(MadtEntryKind::LocalApicAddressOverride.to_entry(&b, 0).is_none());
}

#[test]
fn mcfg_entries() {
    let mut t = header(b"MCFG", 44 + 16 + 16);
    t.extend_from_slice(&[0; 8]);
    t.extend_from_slice(&0xB000_0000u64.to_le_bytes());
    t.extend_from_slice(&[0, 0, 0, 0xFF, 0, 0, 0, 0]);
    t.extend_from_slice(&0xC000_0000u64.to_le_bytes());
    t.extend_from_slice(&[1, 0, 0x10, 0x1F, 0, 0, 0, 0]);
    let mcfg = Mcfg::from_bytes(t);
    assert_eq!(mcfg.header().length, 76);
    let e = mcfg.entries();
    assert_eq!(e.len(), 2);
    assert_eq!(e[0].base_addr, 0xB000_0000);
    assert_eq!(e[0].bus_num_start, 0);
    assert_eq!(e[0].bus_num_end, 0xFF);
    assert_eq!(e[1].seg_grp, 1);
    assert_eq!(e[1].bus_num_start, 0x10);
    assert_eq!(e[1].bus_num_end, 0x1F);
    assert!(Mcfg::signature().same_as(&Signature::mcfg()));
}

#[test]
fn madt_entry_iter_steps_over_other_kinds() {
    let mut e = Vec::new();
    e.extend_from_slice(&[2, 10, 0, 0, 2, 0, 0, 0, 0, 0]); // interrupt source override
    e.extend_from_slice(&[0, 8, 3, 7, 1, 0, 0, 0]); // local APIC: processor 3, APIC 7
    let madt = Madt::from_bytes(madt_bytes(&e, None));
    let mut it = madt.entry_iter();
    match it.next() {
        Some(MadtEntry::LocalApic(c)) => {
            assert_eq!(c.acpi_processor_id, 3);
            assert_eq!(c.apic_id, 7);
        }
        _ => panic!("expected a local APIC"),
    }
    assert!(it.next().is_none());
    assert!(it.next().is_none());
}

#[test]
fn madt_entry_iter_stays_at_overlong_entry() {
    let mut e = Vec::new();
    e.extend_from_slice(&[0, 8, 0, 0, 1, 0, 0, 0]);
    e.extend_from_slice(&[0, 8, 1, 1, 1, 0, 0, 0]);
    let madt = Madt::from_bytes(madt_bytes(&e, Some(44 + 12)));
    let mut it = madt.entry_iter();
    assert!(it.next().is_some());
    assert!(it.next().is_none());
    assert!(it.next().is_none());
}
