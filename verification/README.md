# kernel

The logic of a small x86-64 kernel, verified with Verus: physical and
virtual memory management, ACPI table parsing, interrupt controller setup,
PCI enumeration, NVMe controller bring-up, network packet formats and the
decisions of its locks.

- `src/` is the verified library. Each public function states in its
  contract what it returns or changes; the laws that span functions are
  public proof functions beside them.
  - `allocator/`: the kernel heap's placement and the layout of mapped
    memory regions.
  - `sys/mem/`: addresses, frames and pages, the boot and buddy frame
    allocators, and the four-level page table walker and mapper.
  - `sys/acpi/`: the RSDP, the root table and the MADT and MCFG tables,
    read from their bytes.
  - `sys/interrupts/`: interrupt vectors and handler slots, the PIC masks
    and the APIC description built from the MADT.
  - `io/pci/`: configuration space addresses and registers, capabilities,
    MSI and MSI-X values, device lookup.
  - `io/net/`: IPv4 and Ethernet addresses, ARP, UDP and TCP packets and
    checksums, the TCP connection's steps.
  - `filesystem/`: NVMe registers, commands and identify data, the two
    controller bring-ups as machines the driver steps through, and the
    block device registry.
  - `sync/`: the decisions of the reader-writer lock, sequence lock and
    spin lock on the lock words they observe.
  - `util/`: alignment, bitmaps, little-endian reading and writing, and
    number formatting.
- `tests/` runs the library on concrete values.
- `app/` is the kernel around the library: the entry point, the hardware
  access (the I/O space, memory-mapped registers, page tables through the `x86_64`
  crate), the lock types with their atomics, and the loops that wait on the
  hardware while the library decides each step.
