pub mod acpi;
pub mod interrupts;
pub mod mem;
