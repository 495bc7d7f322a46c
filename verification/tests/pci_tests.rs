use kernel::io::pci::enumerator::{
    bus_count, bus_region_phys, config_addr, function_count, get_addr, is_absent, is_pci_bridge,
    low_u16, low_u8,
};
use kernel::io::pci::{
    capability_step, cmd, find_device, first_capability, msi_data_register, msi_enabled,
    msi_message_address, msix_enabled, msix_table_info, CapabilityStep, HeaderType,
    InterruptSupport, MsixVectorEntry, PciCapability, PciDevice,
};
use kernel::sys::acpi::sdt::mcfg::McfgEntry;

fn entry(base: u64, start: u8, end: u8) -> McfgEntry {
    McfgEntry { base_addr: base, seg_grp: 0, bus_num_start: start, bus_num_end: end, reserved: 0 }
}

fn device(bus: u8, dev: u8, func: u8) -> PciDevice {
    PciDevice::from_config(0x1234_8086, bus, dev, func, 0x0106_0102, 0x0000_0000).expect("a general header")
}

#[test]
fn header_types() {
    assert_eq!(HeaderType::try_from_primitive(1), Ok(HeaderType::PciToPci));
    assert_eq!(HeaderType::try_from_primitive(3), Err(3));
    assert_eq!(HeaderType::General.bar_count(), 6);
    assert_eq!(HeaderType::PciToPci.bar_count(), 2);
    assert_eq!(HeaderType::CardBus.bar_count(), 0);
    assert!(HeaderType::is_multi_function(0x80));
    assert!(!HeaderType::is_multi_function(0x01));
}

#[test]
fn device_from_config_registers() {
    let d = PciDevice::from_config(0x1234_8086, 2, 3, 1, 0x0106_0102, 0x0001_0000).expect("a bridge header");
    assert_eq!(d.vendor_id(), 0x8086);
    assert_eq!(d.device_id(), 0x1234);
    assert_eq!(d.class(), 0x01);
    assert_eq!(d.subclass(), 0x06);
    assert_eq!(d.header_type(), HeaderType::PciToPci);
    assert_eq!((d.bus(), d.device(), d.function()), (2, 3, 1));
    assert!(!d.is_pcie());
}

#[test]
fn device_with_unknown_header_type() {
    match PciDevice::from_config(0x1234_8086, 0, 0, 0, 0, 0x0005_0000) {
        Err(msg) => assert_eq!(msg, "failed to map 0x5 to a header type"),
        Ok(_) => panic!("header type 5 does not exist"),
    }
}

#[test]
fn pcie_config_address_of_function() {
    let d = device(3, 2, 1);
    assert_eq!(d.pcie_config_address(&entry(0xB000_0000, 1, 0xFF)), 0xB020_0000 | (2 << 15) | (1 << 12));
}

#[test]
fn command_and_status_registers() {
    assert_eq!(PciDevice::command_of(0x0010_0007), 0x0007);
    assert_eq!(PciDevice::status_of(0x0010_0007), 0x0010);
    assert!(PciDevice::has_capabilities_of(0x0010));
    assert!(!PciDevice::has_capabilities_of(0x0008));
    assert_eq!(PciDevice::interrupt_line_of(0x0000_010B), 0x0B);
    assert_eq!(PciDevice::interrupt_pin_of(0x0000_010B), 0x01);
    assert_eq!(PciDevice::command_status_value(0x0010, 0x0006), 0x0010_0006);
    assert_eq!(PciDevice::with_bus_mastering(0x0002), 0x0006);
    assert_eq!(cmd::BUS_MASTER, 4);
    assert_eq!(cmd::INTERRUPT, 0x400);
}

#[test]
fn bar_offsets() {
    assert_eq!(PciDevice::bar_offset_from_idx(0), 0x10);
    assert_eq!(PciDevice::bar_offset_from_idx(5), 0x24);
    assert_eq!(PciDevice::bar_idx_from_offset(0x24), 5);
    assert_eq!(PciDevice::bar_idx_from_offset(0x10), 0);
}

#[test]
fn capability_walk_steps() {
    assert_eq!(first_capability(0x0000_0043), 0x40);
    assert_eq!(capability_step(0x0000_5005, PciCapability::Msi), CapabilityStep::Found);
    assert_eq!(capability_step(0x0000_5011, PciCapability::Msi), CapabilityStep::Next(0x50));
    assert_eq!(capability_step(0x0000_0011, PciCapability::MsiX), CapabilityStep::Found);
    assert_eq!(PciCapability::MsiX.id(), 0x11);
}

#[test]
fn msi_values() {
    assert_eq!(msi_message_address(3), 0xFEE0_3000);
    assert_eq!(msi_data_register(0x0080_0000), 3);
    assert_eq!(msi_data_register(0x0000_0000), 2);
    assert_eq!(msi_enabled(0x0080_0005), 0x0081_0005);
    assert_eq!(msix_enabled(0x0003_0011), 0x8003_0011);
    assert_eq!(msix_table_info(0x0000_2004, 0x0011_0000), (4, 0x11, 0x400));
}

#[test]
fn interrupt_support_always_has_isa() {
    assert_eq!(
        InterruptSupport::from_capabilities(false, true),
        InterruptSupport { isa: true, msi: false, msix: true }
    );
}

#[test]
fn config_io_address() {
    assert_eq!(get_addr(0, 0, 0, 0), 0x8000_0000);
    assert_eq!(get_addr(1, 2, 3, 0x0E), 0x8001_1300 | 0x0C);
    assert_eq!(low_u8(0x1234_5678), 0x78);
    assert_eq!(low_u16(0x1234_5678), 0x5678);
}

#[test]
fn enumeration_decisions() {
    assert!(is_absent(0xFFFF_FFFF));
    assert!(!is_absent(0x1234_8086));
    assert_eq!(function_count(0x80), 8);
    assert_eq!(function_count(0x00), 1);
    assert!(is_pci_bridge(0x06, 0x04));
    assert!(!is_pci_bridge(0x06, 0x00));
}

#[test]
fn mcfg_bus_regions() {
    let e = entry(0xB000_0000, 0x10, 0x1F);
    assert_eq!(bus_count(&e), 16);
    assert_eq!(bus_region_phys(&e, 0x12), 0xB020_0000);
    assert_eq!(config_addr(0xFFFF_9000_0000_0000, 2, 1, 0x10), 0xFFFF_9000_0001_1010);
}

#[test]
fn find_device_by_numbers() {
    let devices = vec![device(0, 1, 0), device(0, 2, 0), device(0, 2, 0)];
    assert_eq!(find_device(&devices, 0, 2, 0), Some(1));
    assert_eq!(find_device(&devices, 1, 2, 0), None);
}

#[test]
fn device_summary_line() {
    let d = PciDevice::from_config(0x10D3_8086, 0, 25, 0, 0x0200_0000, 0x0000_0000).expect("a general header");
    assert_eq!(
        d.to_string(),
        "PCI Device: bus=0 device=25 function=0 vendor=0x8086 device=0x10d3 class=0x02 subclass=0x00"
    );
}

#[test]
fn msix_entry_points_at_cpu() {
    let mut e = MsixVectorEntry { msg_low_addr: 1, msg_high_addr: 2, msg_data: 3, vector_ctrl: 1 };
    e.init(2, 0x31);
    assert_eq!(e.msg_low_addr, 0xFEE0_2000);
    assert_eq!(e.msg_high_addr, 0);
    assert_eq!(e.msg_data, 0x31);
    assert_eq!(e.vector_ctrl, 0);
}
