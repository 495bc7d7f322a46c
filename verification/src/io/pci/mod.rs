use vstd::prelude::*;
use crate::allocator::mmio::MappedRegion;
use crate::sys::acpi::sdt::mcfg::McfgEntry;
use crate::util::fmt::{decimal_chars, format_decimal, format_hex_prefixed, format_padded, hex_prefixed_chars, padded_digits};

pub mod cmd;
pub mod enumerator;

verus! {

/// The size of a PCI Express function's configuration space.
pub const PCIE_CONFIG_SPACE: usize = 4096;

/// The offset of the vendor and device ids.
pub const OFF_ID: u8 = 0x0;

/// The offset of the command and status registers.
pub const OFF_COMMAND_STATUS: u8 = 0x04;

/// The offset of the revision, class and subclass.
pub const OFF_CLASS: u8 = 0x08;

/// The offset of the register that holds the header type.
pub const OFF_HEADER: u8 = 0x0C;

/// The offset of the interrupt line and pin.
pub const OFF_INTERRUPT: u8 = 0x3C;

/// The offset of the first base address register.
pub const OFF_BARS_START: u8 = 0x10;

/// The offset of a bridge's secondary bus number.
pub const OFF_SEC_BUS: u8 = 0x19;

/// The offset of the capabilities pointer.
pub const OFF_CAPABILITIES: u8 = 0x34;

/// The layouts of a function's configuration header.
#[derive(Debug, Clone, Copy, PartialEq, Eq, Structural)]
pub enum HeaderType {
    /// An endpoint device.
    General,
    /// A PCI-to-PCI bridge.
    PciToPci,
    CardBus,
}

impl HeaderType {
    /// The type's number.
    pub open spec fn code(self) -> u8 {
        match self {
            HeaderType::General => 0,
            HeaderType::PciToPci => 1,
            HeaderType::CardBus => 2,
        }
    }

    /// The header type of number `raw`, or `Err(raw)` when there is none.
    pub fn try_from_primitive(raw: u8) -> (r: Result<HeaderType, u8>)
        ensures
            match r {
                Ok(h) => h.code() == raw,
                Err(e) => e == raw && raw > 2,
            },
    {
        match raw {
            0 => Ok(HeaderType::General),
            1 => Ok(HeaderType::PciToPci),
            2 => Ok(HeaderType::CardBus),
            _ => Err(raw),
        }
    }

    /// How many base address registers the header has.
    pub fn bar_count(self) -> (r: usize)
        ensures
            r == match self {
                HeaderType::General => 6usize,
                HeaderType::PciToPci => 2usize,
                HeaderType::CardBus => 0usize,
            },
    {
        match self {
            HeaderType::General => 6,
            HeaderType::PciToPci => 2,
            _ => 0,
        }
    }

    /// Whether the header type byte `raw` marks a multi-function device
    /// (bit 7).
    pub fn is_multi_function(raw: u8) -> (r: bool)
        ensures
            r == (raw & 0x80 != 0),
    {
        raw & 0x80 != 0
    }
}

/// The capabilities the library looks for in a capability list.
#[derive(Debug, Clone, Copy, PartialEq, Eq, Structural)]
pub enum PciCapability {
    Msi,
    MsiX,
}

impl PciCapability {
    /// The capability's id.
    pub open spec fn spec_id(self) -> u8 {
        match self {
            PciCapability::Msi => 0x05,
            PciCapability::MsiX => 0x11,
        }
    }

    /// The capability's id.
    pub fn id(self) -> (r: u8)
        ensures
            r == self.spec_id(),
    {
        match self {
            PciCapability::Msi => 0x05,
            PciCapability::MsiX => 0x11,
        }
    }
}

/// Which ways of signalling interrupts a device supports.
#[derive(Clone, Copy, Debug, PartialEq, Eq, Structural)]
pub struct InterruptSupport {
    pub isa: bool,
    pub msi: bool,
    pub msix: bool,
}

impl InterruptSupport {
    /// The support of a device whose capability list has an MSI capability
    /// when `msi` holds and an MSI-X one when `msix` holds: ISA interrupts
    /// always work.
    pub fn from_capabilities(msi: bool, msix: bool) -> (r: Self)
        ensures
            r == (InterruptSupport { isa: true, msi, msix }),
    {
        InterruptSupport { isa: true, msi, msix }
    }
}

/// What the walk of a capability list does at the capability whose first
/// register reads `cap_reg`: stop there when its id is `to_find`, else go on
/// to the capability its next pointer gives (0 ends the list).
#[derive(Clone, Copy, Debug, PartialEq, Eq, Structural)]
pub enum CapabilityStep {
    Found,
    Next(u8),
}

/// The first capability's address, from the capabilities pointer register:
/// its low byte with the two low bits cleared.
pub fn first_capability(cap_ptr_reg: u32) -> (r: u8)
    ensures
        r == (cap_ptr_reg as u8) & 0xFC,
{
    (cap_ptr_reg as u8) & 0xFC
}

/// One step of the walk of a capability list, at a capability whose first
/// register reads `cap_reg`: the id is its low byte, the next pointer the
/// byte above.
pub fn capability_step(cap_reg: u32, to_find: PciCapability) -> (r: CapabilityStep)
    ensures
        (cap_reg as u16) as u8 == to_find.spec_id() ==> r == CapabilityStep::Found,
        (cap_reg as u16) as u8 != to_find.spec_id() ==> r == CapabilityStep::Next(
            ((cap_reg as u16) >> 8u16) as u8,
        ),
{
    let cap_dword = cap_reg as u16;
    let cap_id = cap_dword as u8;
    if cap_id == to_find.id() {
        CapabilityStep::Found
    } else {
        CapabilityStep::Next((cap_dword >> 8) as u8)
    }
}

/// The address an MSI or MSI-X message goes to so that it reaches the local
/// APIC of id `lapic_id`.
pub fn msi_message_address(lapic_id: u8) -> (r: u32)
    ensures
        r == (0xFEEu32 << 20u32) | ((lapic_id as u32) << 12u32),
{
    (0xFEE << 20) | ((lapic_id as u32) << 12)
}

/// The register of the MSI message data, counted from the capability's
/// first register: after a 64-bit address (bit 23 of the header) it is the
/// third, else the second.
pub fn msi_data_register(header: u32) -> (r: u8)
    ensures
        (header >> 23u32) & 1 > 0 ==> r == 3,
        !((header >> 23u32) & 1 > 0) ==> r == 2,
{
    let is_64bit = header >> (16 + 7) & 1 > 0;
    if is_64bit {
        3
    } else {
        2
    }
}

/// The MSI header with MSI enabled (bit 16).
pub fn msi_enabled(header: u32) -> (r: u32)
    ensures
        r == header | (1u32 << 16u32),
{
    header | (1 << 16)
}

/// The MSI-X header with MSI-X enabled (bit 15 of the upper half).
pub fn msix_enabled(header: u32) -> (r: u32)
    ensures
        r == header | (1u32 << 31u32),
{
    header | (1 << (16 + 15))
}

/// Where a device's MSI-X vector table is, from the capability's table
/// register and control half: the base address register it is in (the low
/// three bits), the number of entries (the low ten bits of the control half)
/// and the offset into the register's region (the rest of the table
/// register).
pub fn msix_table_info(table_reg: u32, cap_reg: u32) -> (r: (u32, u32, u32))
    ensures
        r == (table_reg & 0x7, (cap_reg >> 16u32) & 0x3FF, table_reg >> 3u32),
{
    let bir = table_reg & 0x7;
    let ctrl = cap_reg >> 16;
    let table_size = ctrl & 0x3FF;
    let table_offset = table_reg >> 3;
    (bir, table_size, table_offset)
}

/// An entry of an MSI-X vector table: the message address (low and high
/// halves), the message data and the vector control word.
#[derive(Debug, Clone, Copy, PartialEq, Eq, Structural)]
pub struct MsixVectorEntry {
    pub msg_low_addr: u32,
    pub msg_high_addr: u32,
    pub msg_data: u32,
    pub vector_ctrl: u32,
}

impl MsixVectorEntry {
    /// Points the entry at the local APIC `cpu_id` with the interrupt
    /// `int_num`, and unmasks it.
    pub fn init(&mut self, cpu_id: u8, int_num: u32)
        ensures
            final(self).msg_low_addr == (0xFEEu32 << 20u32) | ((cpu_id as u32) << 12u32),
            final(self).msg_high_addr == 0,
            final(self).msg_data == int_num,
            final(self).vector_ctrl == 0,
    {
        self.msg_low_addr = msi_message_address(cpu_id);
        self.msg_high_addr = 0;
        self.msg_data = int_num;
        self.vector_ctrl = 0;
    }
}

/// The text of the error for a header type number `raw` that names no type.
pub open spec fn header_type_error_text(raw: u8) -> Seq<char> {
    "failed to map "@ + hex_prefixed_chars(raw as nat) + " to a header type"@
}

/// The message that no header type has the number `raw`.
fn header_type_error(raw: u8) -> (r: String)
    ensures
        r@ == header_type_error_text(raw),
{
    let mut s = String::from_str("failed to map ");
    let hex = format_hex_prefixed(raw as u64);
    s.append(hex.as_str());
    s.append(" to a header type");
    s
}

/// A function of a PCI device, as its configuration space describes it.
#[derive(Debug)]
pub struct PciDevice {
    bus: u8,
    device: u8,
    function: u8,
    vendor_id: u16,
    device_id: u16,
    class: u8,
    subclass: u8,
    header_type: HeaderType,
    ext_cfg: Option<MappedRegion>,
}

impl PciDevice {
    /// The bus number.
    pub closed spec fn spec_bus(&self) -> u8 {
        self.bus
    }

    /// The device number.
    pub closed spec fn spec_device(&self) -> u8 {
        self.device
    }

    /// The function number.
    pub closed spec fn spec_function(&self) -> u8 {
        self.function
    }

    /// The vendor id.
    pub closed spec fn spec_vendor_id(&self) -> u16 {
        self.vendor_id
    }

    /// The device id.
    pub closed spec fn spec_device_id(&self) -> u16 {
        self.device_id
    }

    /// The class code.
    pub closed spec fn spec_class(&self) -> u8 {
        self.class
    }

    /// The subclass code.
    pub closed spec fn spec_subclass(&self) -> u8 {
        self.subclass
    }

    /// The header type.
    pub closed spec fn spec_header_type(&self) -> HeaderType {
        self.header_type
    }

    /// The extended configuration space, when it is mapped.
    pub closed spec fn spec_ext_cfg(&self) -> Option<MappedRegion> {
        self.ext_cfg
    }

    /// The function at `bus`, `device`, `function` whose id register reads
    /// `id`, whose class register reads `class_reg`, and whose header type
    /// is read from `header_reg` (bits 16 to 18); an error when those bits
    /// name no header type.
    pub fn from_config(id: u32, bus: u8, device: u8, function: u8, class_reg: u32, header_reg: u32) -> (r: Result<Self, String>)
        ensures
            (((header_reg >> 16u32) as u8) & 0x7) > 2 ==> (r matches Err(e) && e@ == header_type_error_text(
                ((header_reg >> 16u32) as u8) & 0x7,
            )),
            (((header_reg >> 16u32) as u8) & 0x7) <= 2 ==> (r matches Ok(d) && {
                &&& d.spec_bus() == bus
                &&& d.spec_device() == device
                &&& d.spec_function() == function
                &&& d.spec_vendor_id() == (id & 0xFFFF) as u16
                &&& d.spec_device_id() == (id >> 16u32) as u16
                &&& d.spec_class() == (class_reg >> 24u32) as u8
                &&& d.spec_subclass() == (class_reg >> 16u32) as u8
                &&& d.spec_header_type().code() == ((header_reg >> 16u32) as u8) & 0x7
                &&& d.spec_ext_cfg() is None
            }),
    {
        let vendor_id = (id & 0xFFFF) as u16;
        let device_id = (id >> 16) as u16;
        let class = (class_reg >> 24) as u8;
        let subclass = (class_reg >> 16) as u8;
        let header_raw = ((header_reg >> 16) as u8) & 0x7;
        let header_type = match HeaderType::try_from_primitive(header_raw) {
            Ok(h) => h,
            Err(n) => {
                return Err(header_type_error(n));
            },
        };
        Ok(
            PciDevice {
                bus,
                device,
                function,
                vendor_id,
                device_id,
                class,
                subclass,
                header_type,
                ext_cfg: None,
            },
        )
    }

    /// The physical address of this function's extended configuration
    /// space, in the memory-mapped space that `entry` describes: the space's
    /// base plus 1 MiB per bus from its first, combined with 32 KiB per
    /// device and 4 KiB per function.
    pub fn pcie_config_address(&self, entry: &McfgEntry) -> (r: u64)
        requires
            self.spec_bus() >= entry.bus_num_start,
            entry.base_addr + ((self.spec_bus() - entry.bus_num_start) as u64) * 0x10_0000 <= u64::MAX,
        ensures
            r == ((entry.base_addr + ((self.spec_bus() - entry.bus_num_start) as u64) * 0x10_0000) as u64)
                | ((self.spec_device() as u64) << 15u64) | ((self.spec_function() as u64) << 12u64),
    {
        let bus_off = (self.bus - entry.bus_num_start) as u64;
        proof {
            vstd::arithmetic::power2::lemma2_to64();
            vstd::bits::lemma_u64_shl_is_mul(bus_off, 20);
        }
        entry.base_addr + (bus_off << 20) | ((self.device as u64) << 15) | ((self.function as u64) << 12)
    }

    /// Records the mapped extended configuration space.
    pub fn set_ext_cfg(&mut self, region: MappedRegion)
        ensures
            final(self).spec_ext_cfg() == Some(region),
            final(self).spec_bus() == old(self).spec_bus(),
            final(self).spec_device() == old(self).spec_device(),
            final(self).spec_function() == old(self).spec_function(),
            final(self).spec_vendor_id() == old(self).spec_vendor_id(),
            final(self).spec_device_id() == old(self).spec_device_id(),
            final(self).spec_class() == old(self).spec_class(),
            final(self).spec_subclass() == old(self).spec_subclass(),
            final(self).spec_header_type() == old(self).spec_header_type(),
    {
        self.ext_cfg = Some(region);
    }

    /// Whether the function is reached through PCI Express: its extended
    /// configuration space is mapped.
    pub fn is_pcie(&self) -> (r: bool)
        ensures
            r == self.spec_ext_cfg() is Some,
    {
        self.ext_cfg.is_some()
    }

    /// The header type.
    pub fn header_type(&self) -> (r: HeaderType)
        ensures
            r == self.spec_header_type(),
    {
        self.header_type
    }

    /// The bus number.
    pub fn bus(&self) -> (r: u8)
        ensures
            r == self.spec_bus(),
    {
        self.bus
    }

    /// The device number.
    pub fn device(&self) -> (r: u8)
        ensures
            r == self.spec_device(),
    {
        self.device
    }

    /// The function number.
    pub fn function(&self) -> (r: u8)
        ensures
            r == self.spec_function(),
    {
        self.function
    }

    /// The vendor id.
    pub fn vendor_id(&self) -> (r: u16)
        ensures
            r == self.spec_vendor_id(),
    {
        self.vendor_id
    }

    /// The device id.
    pub fn device_id(&self) -> (r: u16)
        ensures
            r == self.spec_device_id(),
    {
        self.device_id
    }

    /// The class code.
    pub fn class(&self) -> (r: u8)
        ensures
            r == self.spec_class(),
    {
        self.class
    }

    /// The subclass code.
    pub fn subclass(&self) -> (r: u8)
        ensures
            r == self.spec_subclass(),
    {
        self.subclass
    }

    /// The device's summary line: its position in decimal, its ids in
    /// hexadecimal.
    pub open spec fn text(&self) -> Seq<char> {
        "PCI Device: bus="@ + decimal_chars(self.spec_bus() as nat) + " device="@
            + decimal_chars(self.spec_device() as nat) + " function="@
            + decimal_chars(self.spec_function() as nat) + " vendor=0x"@
            + padded_digits(self.spec_vendor_id() as nat, 16, 4) + " device=0x"@
            + padded_digits(self.spec_device_id() as nat, 16, 4) + " class=0x"@
            + padded_digits(self.spec_class() as nat, 16, 2) + " subclass=0x"@
            + padded_digits(self.spec_subclass() as nat, 16, 2)
    }

    /// The device's summary line, as `text` gives it.
    pub fn to_string(&self) -> (r: String)
        ensures
            r@ == self.text(),
    {
        let mut s = String::from_str("PCI Device: bus=");
        s.append(format_decimal(self.bus as u64).as_str());
        s.append(" device=");
        s.append(format_decimal(self.device as u64).as_str());
        s.append(" function=");
        s.append(format_decimal(self.function as u64).as_str());
        s.append(" vendor=0x");
        s.append(format_padded(self.vendor_id as u64, 16, 4).as_str());
        s.append(" device=0x");
        s.append(format_padded(self.device_id as u64, 16, 4).as_str());
        s.append(" class=0x");
        s.append(format_padded(self.class as u64, 16, 2).as_str());
        s.append(" subclass=0x");
        s.append(format_padded(self.subclass as u64, 16, 2).as_str());
        s
    }

    /// The command register, from the command and status register `reg`.
    pub fn command_of(reg: u32) -> (r: u16)
        ensures
            r == (reg & 0xFFFF) as u16,
    {
        (reg & 0xFFFF) as u16
    }

    /// The status register, from the command and status register `reg`.
    pub fn status_of(reg: u32) -> (r: u16)
        ensures
            r == (reg >> 16u32) as u16,
    {
        (reg >> 16) as u16
    }

    /// Whether the status `status` says the function has a capability list
    /// (bit 4).
    pub fn has_capabilities_of(status: u16) -> (r: bool)
        ensures
            r == (status & (1u16 << 4u16) > 0),
    {
        status & (1 << 4) > 0
    }

    /// The interrupt line, from the interrupt register `reg`.
    pub fn interrupt_line_of(reg: u32) -> (r: u8)
        ensures
            r == (reg & 0xFF) as u8,
    {
        (reg & 0xFF) as u8
    }

    /// The interrupt pin, from the interrupt register `reg`.
    pub fn interrupt_pin_of(reg: u32) -> (r: u8)
        ensures
            r == ((reg >> 8u32) & 0xFF) as u8,
    {
        ((reg >> 8) & 0xFF) as u8
    }

    /// The command and status register value that sets the command to `cmd`
    /// and keeps the status `status`.
    pub fn command_status_value(status: u16, cmd: u16) -> (r: u32)
        ensures
            r == ((status as u32) << 16u32) | (cmd as u32),
    {
        (status as u32) << 16 | cmd as u32
    }

    /// The command `command` with bus mastering enabled.
    pub fn with_bus_mastering(command: u16) -> (r: u16)
        ensures
            r == command | cmd::BUS_MASTER,
    {
        command | cmd::BUS_MASTER
    }

    /// The offset of base address register `idx`.
    pub fn bar_offset_from_idx(idx: usize) -> (r: u8)
        requires
            OFF_BARS_START + (idx as u8) * 4 <= u8::MAX,
        ensures
            r == OFF_BARS_START + (idx as u8) * 4,
    {
        OFF_BARS_START + (idx as u8) * 4
    }

    /// The index of the base address register at `offset`.
    pub fn bar_idx_from_offset(offset: u16) -> (r: usize)
        requires
            offset >> 2u16 >= (OFF_BARS_START >> 2u8) as u16,
        ensures
            r == (offset >> 2u16) as usize - (OFF_BARS_START >> 2u8) as usize,
    {
        (offset >> 2) as usize - (OFF_BARS_START >> 2) as usize
    }
}

/// The position of the function at `bus`, `device`, `function` among
/// `devices`, the first if there are several.
pub open spec fn device_position(devices: Seq<PciDevice>, bus: u8, device: u8, function: u8) -> Option<int>
    decreases devices.len(),
{
    if devices.len() == 0 {
        None
    } else {
        match device_position(devices.drop_last(), bus, device, function) {
            Some(i) => Some(i),
            None => {
                let d = devices.last();
                if d.spec_bus() == bus && d.spec_device() == device && d.spec_function() == function {
                    Some(devices.len() - 1)
                } else {
                    None
                }
            },
        }
    }
}

/// Where the function at `bus`, `device`, `function` is among `devices`:
/// the first entry with the same numbers, so that a function found again
/// replaces it.
pub fn find_device(devices: &[PciDevice], bus: u8, device: u8, function: u8) -> (r: Option<usize>)
    ensures
        r == match device_position(devices@, bus, device, function) {
            Some(i) => Some(i as usize),
            None => None::<usize>,
        },
{
    let mut i: usize = 0;
    while i < devices.len()
        invariant
            i <= devices@.len(),
            device_position(devices@.take(i as int), bus, device, function) is None,
        decreases devices@.len() - i,
    {
        proof {
            assert(devices@.take(i + 1).drop_last() =~= devices@.take(i as int));
        }
        let d = &devices[i];
        if d.bus == bus && d.device == device && d.function == function {
            proof {
                lemma_position_prefix(devices@, bus, device, function, i as int + 1);
            }
            return Some(i);
        }
        i = i + 1;
    }
    proof {
        assert(devices@.take(devices@.len() as int) =~= devices@);
    }
    None
}

/// The position found in a prefix that holds it is the position in the
/// whole sequence.
proof fn lemma_position_prefix(devices: Seq<PciDevice>, bus: u8, device: u8, function: u8, n: int)
    requires
        0 <= n <= devices.len(),
        device_position(devices.take(n), bus, device, function) is Some,
    ensures
        device_position(devices, bus, device, function) == device_position(devices.take(n), bus, device, function),
    decreases devices.len() - n,
{
    if n < devices.len() {
        assert(devices.take(n + 1).drop_last() =~= devices.take(n));
        lemma_position_prefix(devices, bus, device, function, n + 1);
    } else {
        assert(devices.take(n) =~= devices);
    }
}

} // verus!
