use vstd::prelude::*;
use crate::filesystem::drivers::nvme::{css_selector_for, with_field, AmsType, ControllerCap, ControllerConfig};
use crate::filesystem::block::nvme::commands::{CreateCompletionQueueCommand, CreateSubmissionQueueCommand};
use crate::filesystem::block::nvme::queue::RingQueueState;
use crate::filesystem::block::nvme::spec::IO_QUEUES;
use crate::filesystem::block::DeviceId;
use crate::util::fmt::{decimal_chars, format_decimal};

pub mod bringup;
pub mod commands;
pub mod namespace;
pub mod queue;
pub mod spec;

verus! {

/// The number of entries of each I/O queue: a page of 64-byte submission
/// entries.
pub const IO_QUEUE_ENTRY_COUNT: usize = 64;

/// The ring size field of each admin queue.
pub const ADMIN_RING_QUEUE_SIZE: u64 = 63;

/// The command set selector for a controller with the capabilities `cap`.
pub fn select_command_set_selector(cap: &ControllerCap) -> (r: u8)
    ensures
        r == css_selector_for(cap.0),
{
    if cap.css_none() {
        0b111
    } else if cap.css_some() {
        0b110
    } else {
        0b000
    }
}

/// The configuration value written before enabling the controller: the
/// current value `cc` with the command set selector for `cap`, round-robin
/// arbitration, 4 KiB pages, the enable bit clear, 16-byte completion
/// entries and 64-byte submission entries.
pub open spec fn configuration_for(cc: u32, cap: u64) -> u32 {
    with_field(with_field(with_field(with_field(with_field(with_field(
        cc, 4, 0x7, css_selector_for(cap) as u32), 11, 0b111, 0), 7, 0xF, 0), 0, 0x1, 0), 20, 0xF, 4), 16, 0xF, 6)
}

/// The configuration value of `configuration_for`.
pub fn configured(cc: ControllerConfig, cap: &ControllerCap) -> (r: ControllerConfig)
    ensures
        r.0 == configuration_for(cc.0, cap.0),
{
    let css = select_command_set_selector(cap);
    let mut cfg = cc;
    cfg.set_css(css).set_ams(AmsType::RoundRobin).set_mps(0).set_enabled(false).set_iocqes(4).set_iosqes(6);
    cfg
}

/// The Set Features value that asks for `IO_QUEUES` submission and
/// completion queues (both counts are 0-based).
pub fn num_queues_request() -> (r: u32)
    ensures
        r == 0x0001_0001,
{
    proof {
        assert((1u32 << 16u32) | 1u32 == 0x0001_0001u32) by (bit_vector);
    }
    ((IO_QUEUES as u32 - 1) << 16) | (IO_QUEUES as u32 - 1)
}

/// The number of I/O queue pairs to use, from the completion dword 0 of the
/// Number of Queues feature: the smaller of the granted completion and
/// submission queue counts (both 0-based), and at most `IO_QUEUES`.
pub fn queue_count_from_features(dw0: u32) -> (r: u16)
    requires
        dw0 / 0x1_0000 < 0xFFFF,
        dw0 % 0x1_0000 < 0xFFFF,
    ensures
        r == vstd::math::min(vstd::math::min(dw0 / 0x1_0000 + 1, dw0 % 0x1_0000 + 1), IO_QUEUES as int),
{
    proof {
        crate::util::bits::lemma_u32_split16(dw0);
    }
    let io_comp_queues = (dw0 >> 16) as u16 + 1;
    let io_subm_queues = dw0 as u16 + 1;
    let m = if io_comp_queues < io_subm_queues { io_comp_queues } else { io_subm_queues };
    if m < IO_QUEUES { m } else { IO_QUEUES }
}

/// The admin queue attributes value: the completion ring size in the upper
/// half, the submission ring size in the lower half.
pub fn admin_queue_attributes(asq: &RingQueueState, acq: &RingQueueState) -> (r: u32)
    ensures
        r == (((acq.size as u32) << 16u32) | (asq.size as u32)),
{
    ((acq.size as u32) << 16) | (asq.size as u32)
}

/// The Create I/O Submission Queue command for queue `id` of `max_entries`
/// entries in the contiguous memory at `prp`, bound to completion queue
/// `comp_id`.
pub fn io_subm_queue_command(prp: u64, max_entries: usize, id: u16, comp_id: u16) -> (r: CreateSubmissionQueueCommand)
    requires
        max_entries as u32 >= 1,
    ensures
        r.prp == prp,
        r.cdw10 == ((id as u32) | ((((max_entries as u32) - 1) as u32) << 16u32)),
        r.cdw11 == (1u32 | ((comp_id as u32) << 16u32)),
{
    let phys_contig: u32 = 1;
    CreateSubmissionQueueCommand {
        prp,
        cdw10: (id as u32) | ((max_entries as u32 - 1) << 16),
        cdw11: phys_contig | ((comp_id as u32) << 16),
    }
}

/// The Create I/O Completion Queue command for queue `id` of `max_entries`
/// entries in the contiguous memory at `prp`, with interrupts enabled on
/// vector `vec`.
pub fn io_comp_queue_command(prp: u64, max_entries: usize, id: u16, vec: u32) -> (r: CreateCompletionQueueCommand)
    requires
        max_entries as u32 >= 1,
    ensures
        r.prp == prp,
        r.cdw10 == ((id as u32) | ((((max_entries as u32) - 1) as u32) << 16u32)),
        r.cdw11 == ((1u32 | 2u32) | (vec << 16u32)),
{
    let phys_contig: u32 = 0x1;
    let compqueue_enabled: u32 = 0x2;
    CreateCompletionQueueCommand {
        prp,
        cdw10: (id as u32) | ((max_entries as u32 - 1) << 16),
        cdw11: phys_contig | compqueue_enabled | (vec << 16),
    }
}

/// The I/O queue that the `ns_idx`-th namespace uses: the queues are dealt
/// out in turn.
pub fn namespace_queue_index(ns_idx: usize, queue_count: usize) -> (r: usize)
    requires
        queue_count > 0,
    ensures
        r == ns_idx % queue_count,
        r < queue_count,
{
    ns_idx % queue_count
}

/// The id of the namespace `nsid` of the `controller`-th NVMe controller:
/// `nvme`, the controller's number, `n`, the namespace id.
pub fn namespace_device_id(controller: u64, nsid: u32) -> (r: DeviceId)
    ensures
        r.0@ == "nvme"@ + decimal_chars(controller as nat) + "n"@ + decimal_chars(nsid as nat),
{
    let mut s = String::from_str("nvme");
    s.append(format_decimal(controller).as_str());
    s.append("n");
    s.append(format_decimal(nsid as u64).as_str());
    DeviceId(s)
}

/// Whether the command set `csi` is based on the NVM command set (NVM or
/// zoned namespaces).
pub fn is_csi_nvm_based(csi: u8) -> (r: bool)
    ensures
        r == (csi == 0x00 || csi == 0x03),
{
    csi == 0x00 || csi == 0x03
}

} // verus!
