use vstd::prelude::*;
use crate::sys::acpi::sdt::mcfg::McfgEntry;

verus! {

/// The I/O port that selects a configuration register.
pub const CONFIG_ADDRESS: u16 = 0xCF8;

/// The I/O port that reads or writes the selected configuration register.
pub const CONFIG_DATA: u16 = 0xCFC;

/// The size of one bus's memory-mapped configuration space: 32 devices of
/// 8 functions of 4 KiB.
pub const BUS_SIZE: u64 = 32 * 8 * 4096;

/// The value to write to `CONFIG_ADDRESS` to select the register at `offset`
/// of function `func` of `device` on `bus`: the enable bit, the bus, device
/// and function numbers, and the offset's dword.
pub fn get_addr(bus: u8, device: u8, func: u8, offset: u8) -> (r: u32)
    ensures
        r == 0x8000_0000u32 | ((bus as u32) << 16u32) | ((device as u32) << 11u32) | ((func as u32)
            << 8u32) | ((offset as u32) & 0xFC),
{
    let lbus = bus as u32;
    let ldevice = device as u32;
    let lfunc = func as u32;
    let loffset = offset as u32;
    0x80000000 | (lbus << 16) | (ldevice << 11) | (lfunc << 8) | (loffset & 0xFC)
}

/// The low byte of a configuration register.
pub fn low_u8(v: u32) -> (r: u8)
    ensures
        r == (v & 0xFF) as u8,
{
    (v & 0xFF) as u8
}

/// The low half of a configuration register.
pub fn low_u16(v: u32) -> (r: u16)
    ensures
        r == (v & 0xFFFF) as u16,
{
    (v & 0xFFFF) as u16
}

/// Whether the id `id` read from a function says nothing is there.
pub fn is_absent(id: u32) -> (r: bool)
    ensures
        r == (id == 0xFFFF_FFFF),
{
    id == 0xFFFF_FFFF
}

/// How many functions to probe on a device whose header type byte is
/// `header_raw`: all 8 on a multi-function device, else 1.
pub fn function_count(header_raw: u8) -> (r: u8)
    ensures
        r == (if header_raw & 0x80 != 0 { 8u8 } else { 1u8 }),
{
    if crate::io::pci::HeaderType::is_multi_function(header_raw) {
        8
    } else {
        1
    }
}

/// Whether a function of class `class` and subclass `subclass` is a
/// PCI-to-PCI bridge, whose secondary bus is to be scanned too.
pub fn is_pci_bridge(class: u8, subclass: u8) -> (r: bool)
    ensures
        r == (class == 0x06 && subclass == 0x04),
{
    class == 0x06 && subclass == 0x04
}

/// How many buses the memory-mapped space of `entry` covers.
pub fn bus_count(entry: &McfgEntry) -> (r: usize)
    requires
        entry.bus_num_start <= entry.bus_num_end,
        entry.bus_num_end - entry.bus_num_start < 255,
    ensures
        r == entry.bus_num_end - entry.bus_num_start + 1,
{
    (entry.bus_num_end - entry.bus_num_start + 1) as usize
}

/// The physical address of the configuration space of `bus` in the
/// memory-mapped space of `entry`: 1 MiB per bus from the first.
pub fn bus_region_phys(entry: &McfgEntry, bus: u8) -> (r: u64)
    requires
        bus >= entry.bus_num_start,
        entry.base_addr + (bus - entry.bus_num_start) * 0x10_0000 <= u64::MAX,
    ensures
        r == entry.base_addr + (bus - entry.bus_num_start) * 0x10_0000,
{
    let off = (bus - entry.bus_num_start) as u64;
    proof {
        vstd::arithmetic::power2::lemma2_to64();
        vstd::bits::lemma_u64_shl_is_mul(off, 20);
    }
    entry.base_addr + (off << 20)
}

/// The virtual address of the register at `offset` of function `function`
/// of `device`, in a bus's configuration space mapped at `bus_virt`.
pub fn config_addr(bus_virt: u64, device: u8, function: u8, offset: u8) -> (r: u64)
    requires
        bus_virt + device * 0x8000 + function * 0x1000 + offset <= u64::MAX,
    ensures
        r == bus_virt + device * 0x8000 + function * 0x1000 + offset,
{
    proof {
        vstd::arithmetic::power2::lemma2_to64();
        vstd::bits::lemma_u64_shl_is_mul(device as u64, 15);
        vstd::bits::lemma_u64_shl_is_mul(function as u64, 12);
    }
    bus_virt + ((device as u64) << 15) + ((function as u64) << 12) + offset as u64
}

} // verus!
