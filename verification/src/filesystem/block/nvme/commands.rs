use vstd::prelude::*;
use crate::filesystem::block::nvme::queue::SQEntry;
use crate::filesystem::block::nvme::spec::op;

pub use crate::filesystem::drivers::nvme::{AmsType, ControllerCap, ControllerConfig, IdentifyCommandSet, IdentifyController};

verus! {

/// The entry whose command dword 0 is `cdw0` and whose other fields are 0.
pub open spec fn entry_with_cdw0(cdw0: u32) -> SQEntry {
    SQEntry {
        cdw0,
        nsid: 0,
        reserved: 0,
        mptr: 0,
        prp1: 0,
        prp2: 0,
        cdw10: 0,
        cdw11: 0,
        cdw12: 0,
        cdw13: 0,
        cdw14: 0,
        cdw15: 0,
    }
}

/// An admin command: its opcode, and the fields of a submission entry it
/// fills in.
pub trait NvmeCommand: Sized {
    /// The command's opcode.
    spec fn spec_opcode() -> u32;

    /// `after` is `before` with the command's fields filled in.
    spec fn configures(&self, before: SQEntry, after: SQEntry) -> bool;

    /// The command's opcode.
    fn opcode() -> (r: u32)
        ensures
            r == Self::spec_opcode(),
    ;

    /// Fills the command's fields into `entry`.
    fn configure(self, entry: &mut SQEntry)
        ensures
            self.configures(*old(entry), *final(entry)),
    ;
}

/// The submission entry of `command`: its opcode with the PRP data
/// transfer bit (bit 16) set, then its fields.
pub fn build_entry<C: NvmeCommand>(command: C) -> (r: SQEntry)
    ensures
        command.configures(entry_with_cdw0(C::spec_opcode() | 0x1_0000), r),
{
    let mut entry = SQEntry::default();
    entry.cdw0 = C::opcode() | (1 << 16);
    proof {
        assert(1u32 << 16u32 == 0x1_0000) by (bit_vector);
    }
    let ghost before = entry;
    command.configure(&mut entry);
    entry
}

/// The Identify command.
#[derive(Clone, Copy, PartialEq, Eq, Structural, Debug)]
pub struct IdentifyCommand {
    pub cns: u32,
    pub nsid: u32,
    pub cdw11: u32,
    pub prp: u64,
}

impl NvmeCommand for IdentifyCommand {
    open spec fn spec_opcode() -> u32 {
        op::IDENTIFY
    }

    open spec fn configures(&self, before: SQEntry, after: SQEntry) -> bool {
        after == SQEntry { prp1: self.prp, cdw10: self.cns, cdw11: self.cdw11, nsid: self.nsid, ..before }
    }

    fn opcode() -> (r: u32) {
        op::IDENTIFY
    }

    fn configure(self, entry: &mut SQEntry) {
        entry.prp1 = self.prp;
        entry.cdw10 = self.cns;
        entry.cdw11 = self.cdw11;
        entry.nsid = self.nsid;
    }
}

/// The Set Features command.
#[derive(Clone, Copy, PartialEq, Eq, Structural, Debug)]
pub struct SetFeaturesCommand {
    pub fid: u32,
    pub prp: u64,
    pub cdw11: u32,
}

impl NvmeCommand for SetFeaturesCommand {
    open spec fn spec_opcode() -> u32 {
        op::SET_FEATURES
    }

    open spec fn configures(&self, before: SQEntry, after: SQEntry) -> bool {
        after == SQEntry { prp1: self.prp, cdw10: self.fid, cdw11: self.cdw11, ..before }
    }

    fn opcode() -> (r: u32) {
        op::SET_FEATURES
    }

    fn configure(self, entry: &mut SQEntry) {
        entry.prp1 = self.prp;
        entry.cdw10 = self.fid;
        entry.cdw11 = self.cdw11;
    }
}

/// The Create I/O Submission Queue command.
#[derive(Clone, Copy, PartialEq, Eq, Structural, Debug)]
pub struct CreateSubmissionQueueCommand {
    pub prp: u64,
    pub cdw10: u32,
    pub cdw11: u32,
}

impl NvmeCommand for CreateSubmissionQueueCommand {
    open spec fn spec_opcode() -> u32 {
        op::CRT_SUBQ
    }

    open spec fn configures(&self, before: SQEntry, after: SQEntry) -> bool {
        after == SQEntry { prp1: self.prp, cdw10: self.cdw10, cdw11: self.cdw11, ..before }
    }

    fn opcode() -> (r: u32) {
        op::CRT_SUBQ
    }

    fn configure(self, entry: &mut SQEntry) {
        entry.prp1 = self.prp;
        entry.cdw10 = self.cdw10;
        entry.cdw11 = self.cdw11;
    }
}

/// The Create I/O Completion Queue command.
#[derive(Clone, Copy, PartialEq, Eq, Structural, Debug)]
pub struct CreateCompletionQueueCommand {
    pub prp: u64,
    pub cdw10: u32,
    pub cdw11: u32,
}

impl NvmeCommand for CreateCompletionQueueCommand {
    open spec fn spec_opcode() -> u32 {
        op::CRT_CMPQ
    }

    open spec fn configures(&self, before: SQEntry, after: SQEntry) -> bool {
        after == SQEntry { prp1: self.prp, cdw10: self.cdw10, cdw11: self.cdw11, ..before }
    }

    fn opcode() -> (r: u32) {
        op::CRT_CMPQ
    }

    fn configure(self, entry: &mut SQEntry) {
        entry.prp1 = self.prp;
        entry.cdw10 = self.cdw10;
        entry.cdw11 = self.cdw11;
    }
}

/// The submission entry built for an Identify command names the command's
/// namespace and asks for its data: the Identify opcode with the data
/// transfer bit, the namespace id, the buffer, the CNS value and dword 11
/// of the command, every other field 0.
pub proof fn lemma_identify_entry(c: IdentifyCommand, e: SQEntry)
    requires
        c.configures(entry_with_cdw0(IdentifyCommand::spec_opcode() | 0x1_0000), e),
    ensures
        e.cdw0 == 0x1_0006,
        e.nsid == c.nsid,
        e.prp1 == c.prp,
        e.cdw10 == c.cns,
        e.cdw11 == c.cdw11,
        e.reserved == 0 && e.mptr == 0 && e.prp2 == 0,
        e.cdw12 == 0 && e.cdw13 == 0 && e.cdw14 == 0 && e.cdw15 == 0,
{
    crate::filesystem::drivers::controller::lemma_command_words();
}

/// The submission entry built for a Set Features command: the Set Features
/// opcode with the data transfer bit, the buffer, the feature id and dword
/// 11 of the command, every other field (the namespace id too) 0.
pub proof fn lemma_set_features_entry(c: SetFeaturesCommand, e: SQEntry)
    requires
        c.configures(entry_with_cdw0(SetFeaturesCommand::spec_opcode() | 0x1_0000), e),
    ensures
        e.cdw0 == 0x1_0009,
        e.nsid == 0,
        e.prp1 == c.prp,
        e.cdw10 == c.fid,
        e.cdw11 == c.cdw11,
        e.reserved == 0 && e.mptr == 0 && e.prp2 == 0,
        e.cdw12 == 0 && e.cdw13 == 0 && e.cdw14 == 0 && e.cdw15 == 0,
{
    crate::filesystem::drivers::controller::lemma_command_words();
}

/// The submission entry built for a Create I/O Submission Queue command:
/// its opcode with the data transfer bit, the queue's memory, and dwords 10
/// and 11 of the command, every other field 0.
pub proof fn lemma_create_submission_queue_entry(c: CreateSubmissionQueueCommand, e: SQEntry)
    requires
        c.configures(entry_with_cdw0(CreateSubmissionQueueCommand::spec_opcode() | 0x1_0000), e),
    ensures
        e.cdw0 == 0x1_0001,
        e.nsid == 0,
        e.prp1 == c.prp,
        e.cdw10 == c.cdw10,
        e.cdw11 == c.cdw11,
        e.reserved == 0 && e.mptr == 0 && e.prp2 == 0,
        e.cdw12 == 0 && e.cdw13 == 0 && e.cdw14 == 0 && e.cdw15 == 0,
{
    crate::filesystem::drivers::controller::lemma_command_words();
}

/// The submission entry built for a Create I/O Completion Queue command:
/// its opcode with the data transfer bit, the queue's memory, and dwords 10
/// and 11 of the command, every other field 0.
pub proof fn lemma_create_completion_queue_entry(c: CreateCompletionQueueCommand, e: SQEntry)
    requires
        c.configures(entry_with_cdw0(CreateCompletionQueueCommand::spec_opcode() | 0x1_0000), e),
    ensures
        e.cdw0 == 0x1_0005,
        e.nsid == 0,
        e.prp1 == c.prp,
        e.cdw10 == c.cdw10,
        e.cdw11 == c.cdw11,
        e.reserved == 0 && e.mptr == 0 && e.prp2 == 0,
        e.cdw12 == 0 && e.cdw13 == 0 && e.cdw14 == 0 && e.cdw15 == 0,
{
    crate::filesystem::drivers::controller::lemma_command_words();
}

} // verus!
