pub mod allocator;
pub mod filesystem;
pub mod helpers;
pub mod io;
pub mod sync;
pub mod sys;
pub mod util;

use vstd::prelude::*;

verus! {

/// What the kernel reports through QEMU's exit device when its tests end.
#[derive(Debug, Clone, Copy, PartialEq, Eq, Structural)]
pub enum QemuExitCode {
    Success,
    Failed,
}

impl QemuExitCode {
    /// The value written to the exit device's port: 0x10 for success,
    /// 0x11 for failure.
    pub fn code(self) -> (r: u32)
        ensures
            r == (match self {
                QemuExitCode::Success => 0x10u32,
                QemuExitCode::Failed => 0x11u32,
            }),
    {
        match self {
            QemuExitCode::Success => 0x10,
            QemuExitCode::Failed => 0x11,
        }
    }
}

} // verus!
