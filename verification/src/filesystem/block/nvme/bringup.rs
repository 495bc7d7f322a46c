//! Bringing up an NVMe controller for the block layer: resetting it,
//! giving it its admin queues, configuring and enabling it, identifying it,
//! creating its I/O queue pairs and finding its namespaces, each namespace
//! bound to one of the pairs in turn. The driver steps a `NvmeController`
//! through this: each step takes what the last action gave back and tells
//! the driver what to do next.

use vstd::prelude::*;
use crate::filesystem::block::nvme::{
    configuration_for, configured, io_comp_queue_command, io_subm_queue_command, queue_count_from_features,
};
use crate::filesystem::block::nvme::commands::{
    ControllerCap, ControllerConfig, CreateCompletionQueueCommand, CreateSubmissionQueueCommand,
    IdentifyCommand, IdentifyCommandSet, IdentifyController, SetFeaturesCommand,
};
use crate::filesystem::block::nvme::namespace::{
    IdentifyNamespaceIndependent, IdentifyNamespaceList, IdentifyNamespaceNvm, IdentifyNamespaceSpecificNvm,
    NvmNamespaceData, NvmeCommandSet, NvmeNamespace,
};
use crate::filesystem::block::nvme::queue::Status;
use crate::filesystem::block::nvme::spec::IO_QUEUES;
use crate::filesystem::block::nvme::spec::op::features::{FID_NUM_QUEUES, FID_SET_PROFILE};
use crate::filesystem::block::nvme::spec::op::identify::{
    CNS_ACTIVE_NS_CMD_SET, CNS_CMD_SET, CNS_CONTROLLER, CNS_NAMESPACE, CNS_NAMESPACE_INDEPENDENT,
    CNS_SPECIFIC_CTRLR, CNS_SPECIFIC_NS,
};
use crate::filesystem::drivers::controller::{first_nvm_set, ids_listed, lemma_command_words, lemma_enable_bit, succeeded};
use crate::filesystem::drivers::nvme::with_field;

verus! {

/// The number of entries of each I/O queue: a page of 64-byte submission
/// entries.
pub const QUEUE_ENTRIES: usize = 64;

/// An admin command that the bring-up issues.
#[derive(Clone, Copy, PartialEq, Eq, Structural, Debug)]
pub enum BringUpCommand {
    Identify(IdentifyCommand),
    SetFeatures(SetFeaturesCommand),
    CreateCompletionQueue(CreateCompletionQueueCommand),
    CreateSubmissionQueue(CreateSubmissionQueueCommand),
}

/// What the admin buffer is to be read as once a command completes.
#[derive(Clone, Copy, PartialEq, Eq, Structural, Debug)]
pub enum BufferKind {
    Nothing,
    Controller,
    CommandSets,
    NamespaceList,
    NamespaceNvm,
    NamespaceSpecific,
    NamespaceIndependent,
}

/// What the admin buffer held once a command completed, read as the
/// command's `BufferKind` says.
pub enum BufferData {
    Nothing,
    Controller(IdentifyController),
    CommandSets(IdentifyCommandSet),
    NamespaceList(IdentifyNamespaceList),
    NamespaceNvm(IdentifyNamespaceNvm),
    NamespaceSpecific(IdentifyNamespaceSpecificNvm),
    NamespaceIndependent(IdentifyNamespaceIndependent),
}

/// Why the bring-up cannot go on.
#[derive(Clone, Copy, PartialEq, Eq, Structural, Debug)]
pub enum BringUpFailure {
    /// Creating an I/O completion queue failed with this status.
    CompletionQueueFailed(u16),
    /// Creating an I/O submission queue failed with this status.
    SubmissionQueueFailed(u16),
    /// No I/O command set combination supports the NVM command set.
    NoCommandSet,
    /// A namespace was found but no I/O queue pair was created.
    NoIoQueues,
    /// A namespace belongs to a command set other than NVM.
    UnsupportedCommandSet(u8),
}

/// What the driver is to do next.
#[derive(Clone, Copy, PartialEq, Eq, Structural, Debug)]
pub enum BringUpAction {
    /// Read the configuration register (CC).
    ReadConfig,
    /// Write this value to the configuration register.
    WriteConfig(u32),
    /// Read the status register (CSTS).
    ReadStatus,
    /// Give the admin queues and the admin buffer their memory, write this
    /// value to the admin queue attributes (AQA), then the queues'
    /// addresses, and report the buffer's address.
    CreateAdminQueues(u32),
    /// Give a new I/O queue this many bytes of memory, and report its
    /// address.
    AllocateQueue(u64),
    /// Submit the command to the admin queue, wait for its completion, and
    /// read the admin buffer as said.
    Submit(BringUpCommand, BufferKind),
    /// Make the I/O queue pair of this id from the two queues just created.
    AddQueuePair(u16),
    /// Set up the interrupts of this many I/O queue pairs.
    SetupInterrupts(u16),
    /// Stop: the bring-up failed.
    Fail(BringUpFailure),
    /// Nothing more: the controller is up.
    Finished,
}

/// What the last action gave back.
pub enum BringUpEvent {
    /// The action is done and gave nothing back.
    Done,
    /// The register read gave this value.
    Register(u32),
    /// The admin queues were created, and the admin buffer is at this
    /// address.
    AdminQueues(u64),
    /// The queue memory asked for is at this address.
    Allocated(u64),
    /// The command completed with this dword 0 and status, and the buffer
    /// held `data`.
    Completed { dw0: u32, status: u16, data: BufferData },
}

/// Where the bring-up stands: what the last action was.
#[derive(Clone, Copy, PartialEq, Eq, Structural, Debug)]
pub enum BringUpPhase {
    Start,
    ReadingConfig,
    Disabling,
    AwaitingDisabled,
    CreatingAdminQueues,
    ReadingConfigAgain,
    Configuring,
    Enabling,
    AwaitingEnabled,
    IdentifyingController,
    CountingQueues,
    AllocatingCompletion,
    CreatingCompletion,
    AllocatingSubmission,
    CreatingSubmission,
    AddingPair,
    ReadingCommandSets,
    SettingProfile,
    ListingNamespaces,
    IdentifyingNvm,
    IdentifyingSpecific,
    IdentifyingSpecificController,
    IdentifyingIndependent,
    SettingInterrupts,
    Done,
    Failed,
}

/// An NVMe controller as its bring-up knows it: its capabilities, the
/// configuration last written, the admin buffer, what it identified, its
/// I/O queue pairs and namespaces so far, and where the bring-up stands.
pub struct NvmeController {
    pub cap: ControllerCap,
    pub phase: BringUpPhase,
    pub config: u32,
    /// The address of the admin buffer.
    pub buffer: u64,
    pub identify_ctlr: Option<IdentifyController>,
    /// The number of I/O queue pairs to create.
    pub queue_target: u16,
    /// The number of I/O queue pairs created so far.
    pub io_queues: u16,
    /// The command sets whose namespaces are listed.
    pub csis: Vec<u8>,
    /// The command set whose namespaces are being listed.
    pub csi_idx: usize,
    /// The namespace ids of the last list.
    pub nsids: Vec<u32>,
    /// The namespace being identified.
    pub ns_idx: usize,
    /// The NVM data of the namespace being identified.
    pub nvm_identify: Option<IdentifyNamespaceNvm>,
    /// The NVM-specific data of the namespace being identified.
    pub nvm_specific: Option<IdentifyNamespaceSpecificNvm>,
    pub namespaces: Vec<NvmeNamespace>,
}

/// The Identify command for the data `cns` with the buffer at `prp`.
pub open spec fn identify_spec(cns: u32, prp: u64, nsid: u32, cdw11: u32, read: BufferKind) -> BringUpAction {
    BringUpAction::Submit(BringUpCommand::Identify(IdentifyCommand { cns, nsid, cdw11, prp }), read)
}

/// The Set Features command for the feature `fid` with the buffer at `prp`.
pub open spec fn set_features_spec(fid: u32, prp: u64, cdw11: u32) -> BringUpAction {
    BringUpAction::Submit(BringUpCommand::SetFeatures(SetFeaturesCommand { fid, prp, cdw11 }), BufferKind::Nothing)
}

/// `b` is `a` moved on to `phase`, with nothing else changed, and the action
/// `act` is `action`.
pub open spec fn moved(a: &NvmeController, b: &NvmeController, act: BringUpAction, phase: BringUpPhase, action: BringUpAction) -> bool {
    *b == NvmeController { phase, ..*a } && act == action
}

/// What comes once the I/O queue pairs before `count` exist: the memory of
/// the next pair's completion queue, or, with all of them there, the
/// command sets.
pub open spec fn queue_or_sets(a: &NvmeController, count: u16) -> (BringUpPhase, BringUpAction) {
    if count < a.queue_target {
        (BringUpPhase::AllocatingCompletion, BringUpAction::AllocateQueue((QUEUE_ENTRIES * 16) as u64))
    } else {
        (BringUpPhase::ReadingCommandSets, identify_spec(CNS_CMD_SET, a.buffer, 0, 0, BufferKind::CommandSets))
    }
}

/// What comes once the command sets before `i` are done: listing the
/// namespaces of command set `i`, or, past the last, the interrupts.
pub open spec fn list_or_finish(a: &NvmeController, i: int) -> (BringUpPhase, BringUpAction) {
    if i < a.csis@.len() {
        (
            BringUpPhase::ListingNamespaces,
            identify_spec(CNS_ACTIVE_NS_CMD_SET, a.buffer, 0, ((a.csis@[i] as u32) << 24u32) as u32, BufferKind::NamespaceList),
        )
    } else {
        (BringUpPhase::SettingInterrupts, BringUpAction::SetupInterrupts(a.io_queues))
    }
}

/// The first action for the namespace `nsid` of the command set `csi`:
/// it needs an I/O queue pair, and only NVM namespaces are identified.
pub open spec fn namespace_start(a: &NvmeController, csi: u8, nsid: u32) -> (BringUpPhase, BringUpAction) {
    if a.io_queues == 0 {
        (BringUpPhase::Failed, BringUpAction::Fail(BringUpFailure::NoIoQueues))
    } else if csi != 0 {
        (BringUpPhase::Failed, BringUpAction::Fail(BringUpFailure::UnsupportedCommandSet(csi)))
    } else {
        (BringUpPhase::IdentifyingNvm, identify_spec(CNS_NAMESPACE, a.buffer, nsid, 0, BufferKind::NamespaceNvm))
    }
}

/// Where the next namespace is taken up: the namespace `ns_idx` of the
/// list of `a`, or the next command set's list.
pub open spec fn namespace_or_next_set(a: &NvmeController, b: &NvmeController, act: BringUpAction) -> bool {
    if a.ns_idx < a.nsids@.len() {
        *b == NvmeController { phase: b.phase, ..*a }
            && (b.phase, act) == namespace_start(a, a.csis@[a.csi_idx as int], a.nsids@[a.ns_idx as int])
    } else {
        *b == NvmeController { phase: b.phase, csi_idx: (a.csi_idx + 1) as usize, ..*a }
            && (b.phase, act) == list_or_finish(a, a.csi_idx + 1)
    }
}

/// The step of the bring-up from `a` on the event `e`: `b` is where it
/// stands after it, `act` what the driver is to do.
pub open spec fn stepped(a: &NvmeController, e: &BringUpEvent, b: &NvmeController, act: BringUpAction) -> bool {
    let id = (a.io_queues + 1) as u16;
    let csi = a.csis@[a.csi_idx as int];
    let nsid = a.nsids@[a.ns_idx as int];
    match a.phase {
        BringUpPhase::Start => moved(a, b, act, BringUpPhase::ReadingConfig, BringUpAction::ReadConfig),
        BringUpPhase::ReadingConfig => match *e {
            BringUpEvent::Register(cc) => {
                let v = with_field(cc, 0, 0x1, 0);
                *b == NvmeController { phase: BringUpPhase::Disabling, config: v, ..*a } && act == BringUpAction::WriteConfig(v)
            },
            _ => false,
        },
        BringUpPhase::Disabling => moved(a, b, act, BringUpPhase::AwaitingDisabled, BringUpAction::ReadStatus),
        BringUpPhase::AwaitingDisabled => match *e {
            BringUpEvent::Register(csts) => if csts & 1 == 1 {
                moved(a, b, act, BringUpPhase::AwaitingDisabled, BringUpAction::ReadStatus)
            } else {
                moved(a, b, act, BringUpPhase::CreatingAdminQueues, BringUpAction::CreateAdminQueues(0x003F_003F))
            },
            _ => false,
        },
        BringUpPhase::CreatingAdminQueues => match *e {
            BringUpEvent::AdminQueues(buf) => *b == NvmeController { phase: BringUpPhase::ReadingConfigAgain, buffer: buf, ..*a }
                && act == BringUpAction::ReadConfig,
            _ => false,
        },
        BringUpPhase::ReadingConfigAgain => match *e {
            BringUpEvent::Register(cc) => {
                let v = configuration_for(cc, a.cap.0);
                *b == NvmeController { phase: BringUpPhase::Configuring, config: v, ..*a } && act == BringUpAction::WriteConfig(v)
            },
            _ => false,
        },
        BringUpPhase::Configuring => {
            let v = with_field(a.config, 0, 0x1, 1);
            *b == NvmeController { phase: BringUpPhase::Enabling, config: v, ..*a } && act == BringUpAction::WriteConfig(v)
        },
        BringUpPhase::Enabling => moved(a, b, act, BringUpPhase::AwaitingEnabled, BringUpAction::ReadStatus),
        BringUpPhase::AwaitingEnabled => match *e {
            BringUpEvent::Register(csts) => if csts & 1 == 0 {
                moved(a, b, act, BringUpPhase::AwaitingEnabled, BringUpAction::ReadStatus)
            } else {
                moved(a, b, act, BringUpPhase::IdentifyingController,
                    identify_spec(CNS_CONTROLLER, a.buffer, 0, 0, BufferKind::Controller))
            },
            _ => false,
        },
        BringUpPhase::IdentifyingController => match *e {
            BringUpEvent::Completed { data: BufferData::Controller(c), .. } => *b == NvmeController {
                phase: BringUpPhase::CountingQueues,
                identify_ctlr: Some(c),
                ..*a
            } && act == set_features_spec(FID_NUM_QUEUES, a.buffer, 0x0001_0001),
            _ => false,
        },
        BringUpPhase::CountingQueues => match *e {
            BringUpEvent::Completed { dw0, .. } => {
                let target = vstd::math::min(
                    vstd::math::min((dw0 / 0x1_0000 + 1) as int, (dw0 % 0x1_0000 + 1) as int),
                    IO_QUEUES as int,
                ) as u16;
                let c = NvmeController { queue_target: target, io_queues: 0, ..*a };
                *b == NvmeController { phase: b.phase, ..c } && (b.phase, act) == queue_or_sets(&c, 0)
            },
            _ => false,
        },
        BringUpPhase::AllocatingCompletion => match *e {
            BringUpEvent::Allocated(p) => moved(a, b, act, BringUpPhase::CreatingCompletion, BringUpAction::Submit(
                BringUpCommand::CreateCompletionQueue(CreateCompletionQueueCommand {
                    prp: p,
                    cdw10: ((id as u32) | ((((QUEUE_ENTRIES as u32) - 1) as u32) << 16u32)) as u32,
                    cdw11: ((1u32 | 2u32) | ((id as u32) << 16u32)) as u32,
                }),
                BufferKind::Nothing,
            )),
            _ => false,
        },
        BringUpPhase::CreatingCompletion => match *e {
            BringUpEvent::Completed { status, .. } => if !succeeded(status) {
                moved(a, b, act, BringUpPhase::Failed, BringUpAction::Fail(BringUpFailure::CompletionQueueFailed(status)))
            } else {
                moved(a, b, act, BringUpPhase::AllocatingSubmission, BringUpAction::AllocateQueue((QUEUE_ENTRIES * 64) as u64))
            },
            _ => false,
        },
        BringUpPhase::AllocatingSubmission => match *e {
            BringUpEvent::Allocated(p) => moved(a, b, act, BringUpPhase::CreatingSubmission, BringUpAction::Submit(
                BringUpCommand::CreateSubmissionQueue(CreateSubmissionQueueCommand {
                    prp: p,
                    cdw10: ((id as u32) | ((((QUEUE_ENTRIES as u32) - 1) as u32) << 16u32)) as u32,
                    cdw11: (1u32 | ((id as u32) << 16u32)) as u32,
                }),
                BufferKind::Nothing,
            )),
            _ => false,
        },
        BringUpPhase::CreatingSubmission => match *e {
            BringUpEvent::Completed { status, .. } => if !succeeded(status) {
                moved(a, b, act, BringUpPhase::Failed, BringUpAction::Fail(BringUpFailure::SubmissionQueueFailed(status)))
            } else {
                moved(a, b, act, BringUpPhase::AddingPair, BringUpAction::AddQueuePair(id))
            },
            _ => false,
        },
        BringUpPhase::AddingPair => {
            let c = NvmeController { io_queues: id, ..*a };
            *b == NvmeController { phase: b.phase, ..c } && (b.phase, act) == queue_or_sets(&c, id)
        },
        BringUpPhase::ReadingCommandSets => match *e {
            BringUpEvent::Completed { data: BufferData::CommandSets(cs), .. } => {
                let i = first_nvm_set(cs.iocsc@, 0);
                if i == 512 {
                    moved(a, b, act, BringUpPhase::Failed, BringUpAction::Fail(BringUpFailure::NoCommandSet))
                } else {
                    &&& b.csis@ == seq![0u8]
                    &&& *b == NvmeController { phase: BringUpPhase::SettingProfile, csis: b.csis, csi_idx: 0, ..*a }
                    &&& act == set_features_spec(FID_SET_PROFILE, a.buffer, i as u32)
                }
            },
            _ => false,
        },
        BringUpPhase::SettingProfile => *b == NvmeController { phase: b.phase, ..*a }
            && (b.phase, act) == list_or_finish(a, a.csi_idx as int),
        BringUpPhase::ListingNamespaces => match *e {
            BringUpEvent::Completed { data: BufferData::NamespaceList(l), .. } => {
                let c = NvmeController { nsids: b.nsids, ns_idx: 0, ..*a };
                ids_listed(l.namespaces@, b.nsids@) && namespace_or_next_set(&c, b, act)
            },
            _ => false,
        },
        BringUpPhase::IdentifyingNvm => match *e {
            BringUpEvent::Completed { data: BufferData::NamespaceNvm(n), .. } => *b == NvmeController {
                phase: BringUpPhase::IdentifyingSpecific,
                nvm_identify: Some(n),
                ..*a
            } && act == identify_spec(CNS_SPECIFIC_NS, a.buffer, nsid, ((csi as u32) << 24u32) as u32, BufferKind::NamespaceSpecific),
            _ => false,
        },
        BringUpPhase::IdentifyingSpecific => match *e {
            BringUpEvent::Completed { data: BufferData::NamespaceSpecific(sp), .. } => *b == NvmeController {
                phase: BringUpPhase::IdentifyingSpecificController,
                nvm_specific: Some(sp),
                ..*a
            } && act == identify_spec(CNS_SPECIFIC_CTRLR, a.buffer, 0, ((csi as u32) << 24u32) as u32, BufferKind::Nothing),
            _ => false,
        },
        BringUpPhase::IdentifyingSpecificController => moved(a, b, act, BringUpPhase::IdentifyingIndependent,
            identify_spec(CNS_NAMESPACE_INDEPENDENT, a.buffer, nsid, 0, BufferKind::NamespaceIndependent)),
        BringUpPhase::IdentifyingIndependent => match *e {
            BringUpEvent::Completed { data: BufferData::NamespaceIndependent(ind), .. } => {
                let ns = NvmeNamespace {
                    queue: (a.namespaces@.len() % (a.io_queues as nat)) as usize,
                    nsid,
                    command_set: NvmeCommandSet::Nvm(NvmNamespaceData {
                        identify: a.nvm_identify->0,
                        specific: a.nvm_specific->0,
                    }),
                    independent: ind,
                };
                let c = NvmeController {
                    namespaces: b.namespaces,
                    nvm_identify: None,
                    nvm_specific: None,
                    ns_idx: (a.ns_idx + 1) as usize,
                    ..*a
                };
                b.namespaces@ == a.namespaces@.push(ns) && namespace_or_next_set(&c, b, act)
            },
            _ => false,
        },
        BringUpPhase::SettingInterrupts => moved(a, b, act, BringUpPhase::Done, BringUpAction::Finished),
        BringUpPhase::Done | BringUpPhase::Failed => moved(a, b, act, a.phase, BringUpAction::Finished),
    }
}

impl NvmeController {
    /// The bring-up of a controller with capabilities `cap`, not started:
    /// its first step takes `Done`.
    pub fn new(cap: ControllerCap) -> (r: Self)
        ensures
            r.cap == cap,
            r.phase == BringUpPhase::Start,
            r.identify_ctlr is None,
            r.io_queues == 0,
            r.namespaces@ == Seq::<NvmeNamespace>::empty(),
            r.wf(),
    {
        NvmeController {
            cap,
            phase: BringUpPhase::Start,
            config: 0,
            buffer: 0,
            identify_ctlr: None,
            queue_target: 0,
            io_queues: 0,
            csis: Vec::new(),
            csi_idx: 0,
            nsids: Vec::new(),
            ns_idx: 0,
            nvm_identify: None,
            nvm_specific: None,
            namespaces: Vec::new(),
        }
    }

    /// The counts and indices stay in range, and the namespace being
    /// identified has the data read so far.
    pub open spec fn wf(&self) -> bool {
        &&& self.io_queues <= self.queue_target <= IO_QUEUES
        &&& self.csi_idx <= self.csis@.len()
        &&& self.ns_idx <= self.nsids@.len()
        &&& self.phase == BringUpPhase::ListingNamespaces ==> self.csi_idx < self.csis@.len()
        &&& (self.phase == BringUpPhase::AllocatingCompletion || self.phase == BringUpPhase::CreatingCompletion
            || self.phase == BringUpPhase::AllocatingSubmission || self.phase == BringUpPhase::CreatingSubmission
            || self.phase == BringUpPhase::AddingPair) ==> self.io_queues < self.queue_target
        &&& (self.phase == BringUpPhase::IdentifyingNvm || self.phase == BringUpPhase::IdentifyingSpecific
            || self.phase == BringUpPhase::IdentifyingSpecificController || self.phase
            == BringUpPhase::IdentifyingIndependent) ==> {
            &&& self.csi_idx < self.csis@.len()
            &&& self.ns_idx < self.nsids@.len()
            &&& self.io_queues > 0
        }
        &&& (self.phase == BringUpPhase::IdentifyingSpecific || self.phase == BringUpPhase::IdentifyingSpecificController
            || self.phase == BringUpPhase::IdentifyingIndependent) ==> self.nvm_identify is Some
        &&& (self.phase == BringUpPhase::IdentifyingSpecificController || self.phase
            == BringUpPhase::IdentifyingIndependent) ==> self.nvm_specific is Some
    }

    /// The next I/O queue pair's completion queue gets its memory, or, with
    /// all the pairs there, the command sets are read.
    fn queue_or_sets(&mut self) -> (act: BringUpAction)
        requires
            old(self).io_queues <= old(self).queue_target <= IO_QUEUES,
            old(self).csi_idx <= old(self).csis@.len(),
            old(self).ns_idx <= old(self).nsids@.len(),
        ensures
            final(self).wf(),
            *final(self) == (NvmeController { phase: final(self).phase, ..*old(self) }),
            (final(self).phase, act) == queue_or_sets(old(self), old(self).io_queues),
    {
        if self.io_queues < self.queue_target {
            self.phase = BringUpPhase::AllocatingCompletion;
            BringUpAction::AllocateQueue((QUEUE_ENTRIES * 16) as u64)
        } else {
            self.phase = BringUpPhase::ReadingCommandSets;
            BringUpAction::Submit(
                BringUpCommand::Identify(IdentifyCommand { cns: CNS_CMD_SET, nsid: 0, cdw11: 0, prp: self.buffer }),
                BufferKind::CommandSets,
            )
        }
    }

    /// The namespaces of the command set `csi_idx` are listed next, or,
    /// past the last command set, the interrupts are set up.
    fn list_or_finish(&mut self) -> (act: BringUpAction)
        requires
            old(self).io_queues <= old(self).queue_target <= IO_QUEUES,
            old(self).csi_idx <= old(self).csis@.len(),
            old(self).ns_idx <= old(self).nsids@.len(),
        ensures
            final(self).wf(),
            *final(self) == (NvmeController { phase: final(self).phase, ..*old(self) }),
            (final(self).phase, act) == list_or_finish(old(self), old(self).csi_idx as int),
    {
        if self.csi_idx < self.csis.len() {
            let csi = self.csis[self.csi_idx];
            self.phase = BringUpPhase::ListingNamespaces;
            BringUpAction::Submit(
                BringUpCommand::Identify(
                    IdentifyCommand { cns: CNS_ACTIVE_NS_CMD_SET, nsid: 0, cdw11: (csi as u32) << 24, prp: self.buffer },
                ),
                BufferKind::NamespaceList,
            )
        } else {
            self.phase = BringUpPhase::SettingInterrupts;
            BringUpAction::SetupInterrupts(self.io_queues)
        }
    }

    /// The namespace `ns_idx` of the list is taken up next, or the next
    /// command set's list.
    fn namespace_or_next_set(&mut self) -> (act: BringUpAction)
        requires
            old(self).io_queues <= old(self).queue_target <= IO_QUEUES,
            old(self).csi_idx < old(self).csis@.len(),
            old(self).ns_idx <= old(self).nsids@.len(),
        ensures
            final(self).wf(),
            namespace_or_next_set(old(self), final(self), act),
    {
        if self.ns_idx < self.nsids.len() {
            let csi = self.csis[self.csi_idx];
            let nsid = self.nsids[self.ns_idx];
            if self.io_queues == 0 {
                self.phase = BringUpPhase::Failed;
                BringUpAction::Fail(BringUpFailure::NoIoQueues)
            } else if csi != 0 {
                self.phase = BringUpPhase::Failed;
                BringUpAction::Fail(BringUpFailure::UnsupportedCommandSet(csi))
            } else {
                self.phase = BringUpPhase::IdentifyingNvm;
                BringUpAction::Submit(
                    BringUpCommand::Identify(IdentifyCommand { cns: CNS_NAMESPACE, nsid, cdw11: 0, prp: self.buffer }),
                    BufferKind::NamespaceNvm,
                )
            }
        } else {
            proof {
                // The number of command sets is a usize.
                assert(self.csis@.len() == self.csis.len());
            }
            self.csi_idx = self.csi_idx + 1;
            self.list_or_finish()
        }
    }

    /// Takes what the last action gave back and says what to do next, as
    /// `stepped` describes.
    pub fn step(&mut self, event: BringUpEvent) -> (act: BringUpAction)
        requires
            old(self).wf(),
            old(self).expects(&event),
        ensures
            final(self).wf(),
            stepped(old(self), &event, final(self), act),
    {
        match self.phase {
            BringUpPhase::Start => {
                self.phase = BringUpPhase::ReadingConfig;
                BringUpAction::ReadConfig
            },
            BringUpPhase::ReadingConfig => {
                let cc = match event {
                    BringUpEvent::Register(v) => v,
                    _ => {
                        proof {
                            assert(false);
                        }
                        0
                    },
                };
                let mut cfg = ControllerConfig(cc);
                cfg.set_enabled(false);
                self.config = cfg.0;
                self.phase = BringUpPhase::Disabling;
                BringUpAction::WriteConfig(cfg.0)
            },
            BringUpPhase::Disabling => {
                self.phase = BringUpPhase::AwaitingDisabled;
                BringUpAction::ReadStatus
            },
            BringUpPhase::AwaitingDisabled => {
                let csts = match event {
                    BringUpEvent::Register(v) => v,
                    _ => {
                        proof {
                            assert(false);
                        }
                        0
                    },
                };
                if csts & 1 == 1 {
                    BringUpAction::ReadStatus
                } else {
                    self.phase = BringUpPhase::CreatingAdminQueues;
                    BringUpAction::CreateAdminQueues(0x003F_003F)
                }
            },
            BringUpPhase::CreatingAdminQueues => {
                let buf = match event {
                    BringUpEvent::AdminQueues(b) => b,
                    _ => {
                        proof {
                            assert(false);
                        }
                        0
                    },
                };
                self.buffer = buf;
                self.phase = BringUpPhase::ReadingConfigAgain;
                BringUpAction::ReadConfig
            },
            BringUpPhase::ReadingConfigAgain => {
                let cc = match event {
                    BringUpEvent::Register(v) => v,
                    _ => {
                        proof {
                            assert(false);
                        }
                        0
                    },
                };
                let cfg = configured(ControllerConfig(cc), &self.cap);
                self.config = cfg.0;
                self.phase = BringUpPhase::Configuring;
                BringUpAction::WriteConfig(cfg.0)
            },
            BringUpPhase::Configuring => {
                let mut cfg = ControllerConfig(self.config);
                cfg.set_enabled(true);
                self.config = cfg.0;
                self.phase = BringUpPhase::Enabling;
                BringUpAction::WriteConfig(cfg.0)
            },
            BringUpPhase::Enabling => {
                self.phase = BringUpPhase::AwaitingEnabled;
                BringUpAction::ReadStatus
            },
            BringUpPhase::AwaitingEnabled => {
                let csts = match event {
                    BringUpEvent::Register(v) => v,
                    _ => {
                        proof {
                            assert(false);
                        }
                        0
                    },
                };
                if csts & 1 == 0 {
                    BringUpAction::ReadStatus
                } else {
                    self.phase = BringUpPhase::IdentifyingController;
                    BringUpAction::Submit(
                        BringUpCommand::Identify(IdentifyCommand { cns: CNS_CONTROLLER, nsid: 0, cdw11: 0, prp: self.buffer }),
                        BufferKind::Controller,
                    )
                }
            },
            BringUpPhase::IdentifyingController => {
                match event {
                    BringUpEvent::Completed { data: BufferData::Controller(c), .. } => {
                        self.identify_ctlr = Some(c);
                        self.phase = BringUpPhase::CountingQueues;
                        proof {
                            lemma_command_words();
                        }
                        BringUpAction::Submit(
                            BringUpCommand::SetFeatures(SetFeaturesCommand {
                                fid: FID_NUM_QUEUES,
                                prp: self.buffer,
                                cdw11: ((IO_QUEUES as u32 - 1) << 16) | (IO_QUEUES as u32 - 1),
                            }),
                            BufferKind::Nothing,
                        )
                    },
                    _ => {
                        proof {
                            assert(false);
                        }
                        BringUpAction::Finished
                    },
                }
            },
            BringUpPhase::CountingQueues => {
                let dw0 = match event {
                    BringUpEvent::Completed { dw0, .. } => dw0,
                    _ => {
                        proof {
                            assert(false);
                        }
                        0
                    },
                };
                self.queue_target = queue_count_from_features(dw0);
                self.io_queues = 0;
                self.queue_or_sets()
            },
            BringUpPhase::AllocatingCompletion => {
                let p = match event {
                    BringUpEvent::Allocated(p) => p,
                    _ => {
                        proof {
                            assert(false);
                        }
                        0
                    },
                };
                let id = self.io_queues + 1;
                self.phase = BringUpPhase::CreatingCompletion;
                BringUpAction::Submit(
                    BringUpCommand::CreateCompletionQueue(io_comp_queue_command(p, QUEUE_ENTRIES, id, id as u32)),
                    BufferKind::Nothing,
                )
            },
            BringUpPhase::CreatingCompletion => {
                let status = match event {
                    BringUpEvent::Completed { status, .. } => status,
                    _ => {
                        proof {
                            assert(false);
                        }
                        0
                    },
                };
                if !Status(status).is_success() {
                    self.phase = BringUpPhase::Failed;
                    BringUpAction::Fail(BringUpFailure::CompletionQueueFailed(status))
                } else {
                    self.phase = BringUpPhase::AllocatingSubmission;
                    BringUpAction::AllocateQueue((QUEUE_ENTRIES * 64) as u64)
                }
            },
            BringUpPhase::AllocatingSubmission => {
                let p = match event {
                    BringUpEvent::Allocated(p) => p,
                    _ => {
                        proof {
                            assert(false);
                        }
                        0
                    },
                };
                let id = self.io_queues + 1;
                self.phase = BringUpPhase::CreatingSubmission;
                BringUpAction::Submit(
                    BringUpCommand::CreateSubmissionQueue(io_subm_queue_command(p, QUEUE_ENTRIES, id, id)),
                    BufferKind::Nothing,
                )
            },
            BringUpPhase::CreatingSubmission => {
                let status = match event {
                    BringUpEvent::Completed { status, .. } => status,
                    _ => {
                        proof {
                            assert(false);
                        }
                        0
                    },
                };
                if !Status(status).is_success() {
                    self.phase = BringUpPhase::Failed;
                    BringUpAction::Fail(BringUpFailure::SubmissionQueueFailed(status))
                } else {
                    self.phase = BringUpPhase::AddingPair;
                    BringUpAction::AddQueuePair(self.io_queues + 1)
                }
            },
            BringUpPhase::AddingPair => {
                self.io_queues = self.io_queues + 1;
                self.queue_or_sets()
            },
            BringUpPhase::ReadingCommandSets => {
                match event {
                    BringUpEvent::Completed { data: BufferData::CommandSets(cs), .. } => {
                        match cs.first_valid() {
                            None => {
                                proof {
                                    crate::filesystem::drivers::controller::lemma_first_nvm_set(cs.iocsc@, 0, 512);
                                }
                                self.phase = BringUpPhase::Failed;
                                BringUpAction::Fail(BringUpFailure::NoCommandSet)
                            },
                            Some(i) => {
                                proof {
                                    crate::filesystem::drivers::controller::lemma_first_nvm_set(cs.iocsc@, 0, i as int);
                                }
                                self.csis = cs.csi_iter(i);
                                self.csi_idx = 0;
                                self.phase = BringUpPhase::SettingProfile;
                                BringUpAction::Submit(
                                    BringUpCommand::SetFeatures(SetFeaturesCommand { fid: FID_SET_PROFILE, prp: self.buffer, cdw11: i as u32 }),
                                    BufferKind::Nothing,
                                )
                            },
                        }
                    },
                    _ => {
                        proof {
                            assert(false);
                        }
                        BringUpAction::Finished
                    },
                }
            },
            BringUpPhase::SettingProfile => self.list_or_finish(),
            BringUpPhase::ListingNamespaces => {
                match event {
                    BringUpEvent::Completed { data: BufferData::NamespaceList(l), .. } => {
                        self.nsids = l.valid();
                        self.ns_idx = 0;
                        self.namespace_or_next_set()
                    },
                    _ => {
                        proof {
                            assert(false);
                        }
                        BringUpAction::Finished
                    },
                }
            },
            BringUpPhase::IdentifyingNvm => {
                match event {
                    BringUpEvent::Completed { data: BufferData::NamespaceNvm(n), .. } => {
                        let csi = self.csis[self.csi_idx];
                        let nsid = self.nsids[self.ns_idx];
                        self.nvm_identify = Some(n);
                        self.phase = BringUpPhase::IdentifyingSpecific;
                        BringUpAction::Submit(
                            BringUpCommand::Identify(
                                IdentifyCommand { cns: CNS_SPECIFIC_NS, nsid, cdw11: (csi as u32) << 24, prp: self.buffer },
                            ),
                            BufferKind::NamespaceSpecific,
                        )
                    },
                    _ => {
                        proof {
                            assert(false);
                        }
                        BringUpAction::Finished
                    },
                }
            },
            BringUpPhase::IdentifyingSpecific => {
                match event {
                    BringUpEvent::Completed { data: BufferData::NamespaceSpecific(sp), .. } => {
                        let csi = self.csis[self.csi_idx];
                        self.nvm_specific = Some(sp);
                        self.phase = BringUpPhase::IdentifyingSpecificController;
                        BringUpAction::Submit(
                            BringUpCommand::Identify(
                                IdentifyCommand { cns: CNS_SPECIFIC_CTRLR, nsid: 0, cdw11: (csi as u32) << 24, prp: self.buffer },
                            ),
                            BufferKind::Nothing,
                        )
                    },
                    _ => {
                        proof {
                            assert(false);
                        }
                        BringUpAction::Finished
                    },
                }
            },
            BringUpPhase::IdentifyingSpecificController => {
                let nsid = self.nsids[self.ns_idx];
                self.phase = BringUpPhase::IdentifyingIndependent;
                BringUpAction::Submit(
                    BringUpCommand::Identify(
                        IdentifyCommand { cns: CNS_NAMESPACE_INDEPENDENT, nsid, cdw11: 0, prp: self.buffer },
                    ),
                    BufferKind::NamespaceIndependent,
                )
            },
            BringUpPhase::IdentifyingIndependent => {
                match event {
                    BringUpEvent::Completed { data: BufferData::NamespaceIndependent(ind), .. } => {
                        let nsid = self.nsids[self.ns_idx];
                        let (identify, specific) = match (self.nvm_identify, self.nvm_specific) {
                            (Some(n), Some(sp)) => (n, sp),
                            _ => {
                                proof {
                                    assert(false);
                                }
                                return BringUpAction::Finished;
                            },
                        };
                        let queue = self.namespaces.len() % (self.io_queues as usize);
                        self.namespaces.push(NvmeNamespace {
                            queue,
                            nsid,
                            command_set: NvmeCommandSet::Nvm(NvmNamespaceData { identify, specific }),
                            independent: ind,
                        });
                        self.nvm_identify = None;
                        self.nvm_specific = None;
                        proof {
                            // The number of namespace ids is a usize.
                            assert(self.nsids@.len() == self.nsids.len());
                        }
                        self.ns_idx = self.ns_idx + 1;
                        self.namespace_or_next_set()
                    },
                    _ => {
                        proof {
                            assert(false);
                        }
                        BringUpAction::Finished
                    },
                }
            },
            BringUpPhase::SettingInterrupts => {
                self.phase = BringUpPhase::Done;
                BringUpAction::Finished
            },
            BringUpPhase::Done | BringUpPhase::Failed => BringUpAction::Finished,
        }
    }

    /// Whether `e` is what the last action gives back. A completion carries
    /// the buffer read as the command asked; the queue count the controller
    /// grants is below 2^16 - 1 on both halves.
    pub open spec fn expects(&self, e: &BringUpEvent) -> bool {
        match self.phase {
            BringUpPhase::ReadingConfig | BringUpPhase::AwaitingDisabled | BringUpPhase::ReadingConfigAgain
            | BringUpPhase::AwaitingEnabled => e is Register,
            BringUpPhase::CreatingAdminQueues => e is AdminQueues,
            BringUpPhase::AllocatingCompletion | BringUpPhase::AllocatingSubmission => e is Allocated,
            BringUpPhase::IdentifyingController => *e matches BringUpEvent::Completed { data: BufferData::Controller(_), .. },
            BringUpPhase::CountingQueues => *e matches BringUpEvent::Completed { dw0, .. }
                && dw0 / 0x1_0000 < 0xFFFF && dw0 % 0x1_0000 < 0xFFFF,
            BringUpPhase::ReadingCommandSets => *e matches BringUpEvent::Completed { data: BufferData::CommandSets(_), .. },
            BringUpPhase::ListingNamespaces => *e matches BringUpEvent::Completed { data: BufferData::NamespaceList(_), .. },
            BringUpPhase::IdentifyingNvm => *e matches BringUpEvent::Completed { data: BufferData::NamespaceNvm(_), .. },
            BringUpPhase::IdentifyingSpecific => *e matches BringUpEvent::Completed { data: BufferData::NamespaceSpecific(_), .. },
            BringUpPhase::IdentifyingIndependent => *e matches BringUpEvent::Completed {
                data: BufferData::NamespaceIndependent(_),
                ..
            },
            BringUpPhase::CreatingCompletion | BringUpPhase::CreatingSubmission | BringUpPhase::SettingProfile
            | BringUpPhase::IdentifyingSpecificController => e is Completed,
            _ => e is Done,
        }
    }
}

} // verus!

verus! {

/// The controller is enabled only once it was seen disabled and given its
/// admin queues: the only step that writes a configuration with the enable
/// bit set comes from `Configuring`, which only `ReadingConfigAgain` leads
/// to, which only `CreatingAdminQueues` leads to, which only a status read
/// showing the controller disabled leads to.
pub proof fn lemma_enable_after_admin_queues(a: &NvmeController, e: BringUpEvent, b: &NvmeController, act: BringUpAction)
    requires
        a.wf(),
        a.expects(&e),
        stepped(a, &e, b, act),
    ensures
        (act matches BringUpAction::WriteConfig(v) && v & 1 == 1) ==> a.phase == BringUpPhase::Configuring,
        b.phase == BringUpPhase::Configuring && a.phase != BringUpPhase::Configuring ==> a.phase == BringUpPhase::ReadingConfigAgain,
        b.phase == BringUpPhase::ReadingConfigAgain && a.phase != BringUpPhase::ReadingConfigAgain ==> a.phase
            == BringUpPhase::CreatingAdminQueues,
        b.phase == BringUpPhase::CreatingAdminQueues && a.phase != BringUpPhase::CreatingAdminQueues ==> a.phase
            == BringUpPhase::AwaitingDisabled && (e matches BringUpEvent::Register(csts) && csts & 1 == 0),
{
    match e {
        BringUpEvent::Register(v) => {
            crate::util::bits::lemma_u32_and_le(v, 1);
            lemma_enable_bit(v, 0);
            // The fields of the configured value, up to the enable bit's.
            let f1 = with_field(v, 4, 0x7, crate::filesystem::drivers::nvme::css_selector_for(a.cap.0) as u32);
            let f2 = with_field(f1, 11, 0b111, 0);
            let f3 = with_field(f2, 7, 0xF, 0);
            let f4 = with_field(f3, 0, 0x1, 0);
            let f5 = with_field(f4, 20, 0xF, 4);
            lemma_enable_bit(f3, 0);
            lemma_enable_bit(f4, 4);
            lemma_enable_bit(f5, 6);
        },
        _ => {
            lemma_enable_bit(a.config, 0);
        },
    }
}

/// The I/O queue pairs are made in order: the pair made at a step is the
/// one after those already there, and no more than were granted.
pub proof fn lemma_pairs_in_order(a: &NvmeController, e: BringUpEvent, b: &NvmeController, act: BringUpAction)
    requires
        a.wf(),
        a.expects(&e),
        stepped(a, &e, b, act),
    ensures
        act matches BringUpAction::AddQueuePair(id) ==> id == a.io_queues + 1 && id <= a.queue_target,
        b.io_queues != a.io_queues ==> b.io_queues == a.io_queues + 1 || b.io_queues == 0,
        b.wf(),
{
}

/// The namespaces found are never dropped or changed; each one added is
/// bound to an existing I/O queue pair, the pairs taken in turn.
pub proof fn lemma_namespaces_on_pairs(a: &NvmeController, e: BringUpEvent, b: &NvmeController, act: BringUpAction)
    requires
        a.wf(),
        a.expects(&e),
        stepped(a, &e, b, act),
    ensures
        a.namespaces@.is_prefix_of(b.namespaces@),
        b.namespaces@.len() <= a.namespaces@.len() + 1,
        b.namespaces@.len() == a.namespaces@.len() + 1 ==> {
            &&& b.namespaces@.last().queue < a.io_queues
            &&& b.namespaces@.last().queue == a.namespaces@.len() % (a.io_queues as nat)
        },
{
    assert(a.namespaces@.subrange(0, a.namespaces@.len() as int) =~= a.namespaces@);
    if b.namespaces@.len() == a.namespaces@.len() + 1 {
        assert(b.namespaces@.subrange(0, a.namespaces@.len() as int) =~= a.namespaces@);
    }
}

} // verus!
