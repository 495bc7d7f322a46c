use vstd::prelude::*;

verus! {

/// Enables I/O space accesses.
pub const IO: u16 = 1 << 0;

/// Enables memory space accesses.
pub const MEM: u16 = 1 << 1;

/// Enables bus mastering.
pub const BUS_MASTER: u16 = 1 << 2;

/// Enables monitoring of special cycles.
pub const SC: u16 = 1 << 3;

/// Lets the device generate memory write and invalidate commands.
pub const MEM_WRITE: u16 = 1 << 4;

/// Makes the device snoop palette register writes rather than answer them.
pub const VGA_PALETTE: u16 = 1 << 5;

/// Makes the device act on parity errors.
pub const PARITY_ERR: u16 = 1 << 6;

/// Enables the SERR# driver.
pub const SERR: u16 = 1 << 8;

/// Lets the device generate fast back-to-back transactions.
pub const FBBE: u16 = 1 << 9;

/// Disables the device's INTx# signal.
pub const INTERRUPT: u16 = 1 << 10;

} // verus!
