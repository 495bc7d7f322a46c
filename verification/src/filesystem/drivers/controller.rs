//! Bringing up an NVMe controller: resetting it, giving it its admin
//! queues, configuring and enabling it, identifying it and its namespaces,
//! and asking for its I/O queues. The driver steps a `NvmeController`
//! through this: each step takes what the last action gave back and tells
//! the driver what to do next.

use vstd::prelude::*;
use crate::filesystem::block::nvme::{configuration_for, configured, is_csi_nvm_based};
use crate::filesystem::block::nvme::spec::IO_QUEUES;
use crate::filesystem::block::nvme::spec::op::{IDENTIFY, SET_FEATURES};
use crate::filesystem::block::nvme::spec::op::features::{FID_NUM_QUEUES, FID_SET_PROFILE};
use crate::filesystem::block::nvme::spec::op::identify::{
    CNS_ACTIVE_NS_CMD_SET, CNS_CMD_SET, CNS_CONTROLLER, CNS_NAMESPACE, CNS_NAMESPACE_INDEPENDENT,
    CNS_SPECIFIC_CTRLR, CNS_SPECIFIC_NS,
};
use crate::filesystem::drivers::nvme::{
    with_field, ControllerCap, ControllerConfig, IdentifyCommandSet, IdentifyController,
    IdentifyNamespaceIndependent, IdentifyNamespaceList, IdentifyNamespaceNvm, SQEntry, Status,
};

verus! {

/// An admin command that the bring-up issues.
#[derive(Clone, Copy, PartialEq, Eq, Structural, Debug)]
pub enum AdminCommand {
    /// Identify, with the kind of data asked for (CNS), a namespace id and
    /// dword 11.
    Identify { cns: u32, nsid: u32, cdw11: u32 },
    /// Set Features, with the feature id and dword 11.
    SetFeatures { fid: u32, cdw11: u32 },
}

impl AdminCommand {
    /// The submission entry of the command, with the admin buffer at `prp`:
    /// the opcode in dword 0 with bit 16 set, the buffer as first data
    /// pointer, the CNS or feature id in dword 10.
    pub fn entry(&self, prp: u64) -> (r: SQEntry)
        ensures
            r.prp1 == prp,
            r.reserved == 0 && r.mptr == 0 && r.prp2 == 0,
            r.cdw12 == 0 && r.cdw13 == 0 && r.cdw14 == 0 && r.cdw15 == 0,
            match *self {
                AdminCommand::Identify { cns, nsid, cdw11 } => r.cdw0 == 0x1_0006 && r.nsid == nsid
                    && r.cdw10 == cns && r.cdw11 == cdw11,
                AdminCommand::SetFeatures { fid, cdw11 } => r.cdw0 == 0x1_0009 && r.nsid == 0
                    && r.cdw10 == fid && r.cdw11 == cdw11,
            },
    {
        proof {
            lemma_command_words();
        }
        let mut e = SQEntry::default();
        e.prp1 = prp;
        match *self {
            AdminCommand::Identify { cns, nsid, cdw11 } => {
                e.cdw0 = IDENTIFY | (1 << 16);
                e.cdw10 = cns;
                e.nsid = nsid;
                e.cdw11 = cdw11;
            },
            AdminCommand::SetFeatures { fid, cdw11 } => {
                e.cdw0 = SET_FEATURES | (1 << 16);
                e.cdw10 = fid;
                e.cdw11 = cdw11;
            },
        }
        e
    }
}

/// What the admin buffer is to be read as once a command completes.
#[derive(Clone, Copy, PartialEq, Eq, Structural, Debug)]
pub enum BufferRead {
    Nothing,
    Controller,
    CommandSets,
    NamespaceList,
    NamespaceNvm,
    NamespaceIndependent,
}

/// What the admin buffer held once a command completed, read as the
/// command's `BufferRead` says.
pub enum AdminData {
    Nothing,
    Controller(IdentifyController),
    CommandSets(IdentifyCommandSet),
    NamespaceList(IdentifyNamespaceList),
    NamespaceNvm(IdentifyNamespaceNvm),
    NamespaceIndependent(IdentifyNamespaceIndependent),
}

/// Whether `data` is what reading the buffer as `read` gives.
pub open spec fn read_as(data: &AdminData, read: BufferRead) -> bool {
    match read {
        BufferRead::Nothing => data is Nothing,
        BufferRead::Controller => data is Controller,
        BufferRead::CommandSets => data is CommandSets,
        BufferRead::NamespaceList => data is NamespaceList,
        BufferRead::NamespaceNvm => data is NamespaceNvm,
        BufferRead::NamespaceIndependent => data is NamespaceIndependent,
    }
}

/// Why the bring-up cannot go on.
#[derive(Clone, Copy, PartialEq, Eq, Structural, Debug)]
pub enum InitFailure {
    /// An admin command completed with this status, which is not success.
    CommandFailed(u16),
    /// No I/O command set combination supports the NVM command set.
    NoCommandSet,
}

/// What the driver is to do next.
#[derive(Clone, Copy, PartialEq, Eq, Structural, Debug)]
pub enum InitAction {
    /// Read the configuration register (CC).
    ReadConfig,
    /// Write this value to the configuration register.
    WriteConfig(u32),
    /// Read the status register (CSTS).
    ReadStatus,
    /// Give the admin queues their memory and write this value to the admin
    /// queue attributes (AQA), then their addresses.
    CreateAdminQueues(u32),
    /// Submit the command to the admin queue, wait for its completion, and
    /// read the admin buffer as said.
    Submit(AdminCommand, BufferRead),
    /// Set up the controller's interrupts.
    SetupInterrupts,
    /// Stop: the bring-up failed.
    Fail(InitFailure),
    /// Nothing more: the controller is up.
    Finished,
}

/// What the last action gave back.
pub enum InitEvent {
    /// The action is done and gave nothing back.
    Done,
    /// The register read gave this value.
    Register(u32),
    /// The command completed with this dword 0 and status, and the buffer
    /// held `data`.
    Completed { dw0: u32, status: u16, data: AdminData },
}

/// Where the bring-up stands: what the last action was.
#[derive(Clone, Copy, PartialEq, Eq, Structural, Debug)]
pub enum InitPhase {
    Start,
    ReadingConfig,
    Disabling,
    AwaitingDisabled,
    CreatingQueues,
    ReadingConfigAgain,
    Configuring,
    Enabling,
    AwaitingEnabled,
    IdentifyingController,
    ReadingCommandSets,
    SettingProfile,
    ListingNamespaces,
    IdentifyingNvm,
    IdentifyingSpecific,
    IdentifyingSpecificController,
    IdentifyingIndependent,
    CountingQueues,
    SettingInterrupts,
    Done,
    Failed,
}

/// A namespace of the controller: its id, its command set, the NVM data
/// of NVM-based command sets, and its command-set-independent data.
pub struct NvmeNamespace {
    pub nsid: u32,
    pub csi: u8,
    pub nvm_base: Option<IdentifyNamespaceNvm>,
    pub independent: IdentifyNamespaceIndependent,
}

/// An NVMe controller as its bring-up knows it: its capabilities, the
/// configuration last written, what it identified, the namespaces found so
/// far, and where the bring-up stands.
pub struct NvmeController {
    pub cap: ControllerCap,
    pub phase: InitPhase,
    pub config: u32,
    pub identify_ctlr: Option<IdentifyController>,
    /// The command sets whose namespaces are listed.
    pub csis: Vec<u8>,
    /// The command set whose namespaces are being listed.
    pub csi_idx: usize,
    /// The namespace ids of the last list.
    pub nsids: Vec<u32>,
    /// The namespace being identified.
    pub ns_idx: usize,
    /// The NVM data of the namespace being identified.
    pub nvm_base: Option<IdentifyNamespaceNvm>,
    pub namespaces: Vec<NvmeNamespace>,
    pub queue_count: u16,
}

/// The Set Features value that asks for `IO_QUEUES` submission and
/// completion queues.
pub open spec fn queue_request() -> u32 {
    0x0002_0002
}

/// Whether the status `status` is success: code type and code 0.
pub open spec fn succeeded(status: u16) -> bool {
    (status >> 9u16) & 0x7 == 0 && (status >> 1u16) & 0xFF == 0
}

/// What comes once the command sets before `i` are done: listing the
/// namespaces of command set `i`, or, past the last, asking for the I/O
/// queues.
pub open spec fn list_or_count(csis: Seq<u8>, i: int) -> (InitPhase, InitAction) {
    if i < csis.len() {
        (
            InitPhase::ListingNamespaces,
            InitAction::Submit(
                AdminCommand::Identify { cns: CNS_ACTIVE_NS_CMD_SET, nsid: 0, cdw11: ((csis[i] as u32) << 24u32) as u32 },
                BufferRead::NamespaceList,
            ),
        )
    } else {
        (
            InitPhase::CountingQueues,
            InitAction::Submit(AdminCommand::SetFeatures { fid: FID_NUM_QUEUES, cdw11: queue_request() }, BufferRead::Nothing),
        )
    }
}

/// The first command for the namespace `nsid` of the command set `csi`:
/// its NVM data for NVM-based command sets, else its command-set-specific
/// data.
pub open spec fn namespace_start(csi: u8, nsid: u32) -> (InitPhase, InitAction) {
    if csi == 0x00 || csi == 0x03 {
        (
            InitPhase::IdentifyingNvm,
            InitAction::Submit(AdminCommand::Identify { cns: CNS_NAMESPACE, nsid, cdw11: 0 }, BufferRead::NamespaceNvm),
        )
    } else {
        (
            InitPhase::IdentifyingSpecific,
            InitAction::Submit(
                AdminCommand::Identify { cns: CNS_SPECIFIC_NS, nsid, cdw11: ((csi as u32) << 24u32) as u32 },
                BufferRead::Nothing,
            ),
        )
    }
}

/// Everything but the phase is the same in `a` and `b`.
pub open spec fn same_but_phase(a: &NvmeController, b: &NvmeController) -> bool {
    &&& b.cap == a.cap
    &&& b.config == a.config
    &&& b.identify_ctlr == a.identify_ctlr
    &&& b.csis@ == a.csis@
    &&& b.csi_idx == a.csi_idx
    &&& b.nsids@ == a.nsids@
    &&& b.ns_idx == a.ns_idx
    &&& b.nvm_base == a.nvm_base
    &&& b.namespaces@ == a.namespaces@
    &&& b.queue_count == a.queue_count
}

/// `b` is `a` moved on to `phase`, with nothing else changed, and the action
/// `act` is `action`.
pub open spec fn moved(a: &NvmeController, b: &NvmeController, act: InitAction, phase: InitPhase, action: InitAction) -> bool {
    same_but_phase(a, b) && b.phase == phase && act == action
}

/// The ids of the namespaces in `namespaces`, in order.
pub open spec fn nsids_of(namespaces: Seq<NvmeNamespace>) -> Seq<u32> {
    namespaces.map_values(|n: NvmeNamespace| n.nsid)
}

/// Everything but the phase and the configuration is the same in `a` and
/// `b`.
pub open spec fn same_lists(a: &NvmeController, b: &NvmeController) -> bool {
    &&& b.cap == a.cap
    &&& b.identify_ctlr == a.identify_ctlr
    &&& b.csis@ == a.csis@
    &&& b.csi_idx == a.csi_idx
    &&& b.nsids@ == a.nsids@
    &&& b.ns_idx == a.ns_idx
    &&& b.nvm_base == a.nvm_base
    &&& b.namespaces@ == a.namespaces@
    &&& b.queue_count == a.queue_count
}

/// `b` is `a` moved on to `phase` with the configuration `value`, and `act`
/// writes that value.
pub open spec fn configured_to(a: &NvmeController, b: &NvmeController, act: InitAction, phase: InitPhase, value: u32) -> bool {
    same_lists(a, b) && b.config == value && b.phase == phase && act == InitAction::WriteConfig(value)
}

/// The index of the first command set combination, from `from` on, that
/// supports the NVM command set (bit 0); 512 where there is none.
pub open spec fn first_nvm_set(iocsc: Seq<u64>, from: int) -> int
    decreases 512 - from,
{
    if from >= 512 || from < 0 {
        512
    } else if iocsc[from] & 1 == 1 {
        from
    } else {
        first_nvm_set(iocsc, from + 1)
    }
}

/// Whether `ids` are the ids of the namespace list `list`: the ids before
/// the first 0.
pub open spec fn ids_listed(list: Seq<u32>, ids: Seq<u32>) -> bool {
    &&& ids.len() <= list.len()
    &&& ids == list.subrange(0, ids.len() as int)
    &&& forall|j: int| 0 <= j < ids.len() ==> #[trigger] ids[j] != 0
    &&& ids.len() < list.len() ==> list[ids.len() as int] == 0
}

/// The step of the bring-up from `a` on the event `e`: `b` is where it
/// stands after it, `act` what the driver is to do. A command that fails
/// stops the bring-up.
pub open spec fn stepped(a: &NvmeController, e: &InitEvent, b: &NvmeController, act: InitAction) -> bool {
    match a.phase {
        InitPhase::Start => moved(a, b, act, InitPhase::ReadingConfig, InitAction::ReadConfig),
        InitPhase::ReadingConfig => match *e {
            InitEvent::Register(cc) => configured_to(a, b, act, InitPhase::Disabling, with_field(cc, 0, 0x1, 0)),
            _ => false,
        },
        InitPhase::Disabling => moved(a, b, act, InitPhase::AwaitingDisabled, InitAction::ReadStatus),
        InitPhase::AwaitingDisabled => match *e {
            InitEvent::Register(csts) => if csts & 1 == 1 {
                moved(a, b, act, InitPhase::AwaitingDisabled, InitAction::ReadStatus)
            } else {
                moved(a, b, act, InitPhase::CreatingQueues, InitAction::CreateAdminQueues(0x003F_003F))
            },
            _ => false,
        },
        InitPhase::CreatingQueues => moved(a, b, act, InitPhase::ReadingConfigAgain, InitAction::ReadConfig),
        InitPhase::ReadingConfigAgain => match *e {
            InitEvent::Register(cc) => configured_to(a, b, act, InitPhase::Configuring, configuration_for(cc, a.cap.0)),
            _ => false,
        },
        InitPhase::Configuring => configured_to(a, b, act, InitPhase::Enabling, with_field(a.config, 0, 0x1, 1)),
        InitPhase::Enabling => moved(a, b, act, InitPhase::AwaitingEnabled, InitAction::ReadStatus),
        InitPhase::AwaitingEnabled => match *e {
            InitEvent::Register(csts) => if csts & 1 == 0 {
                moved(a, b, act, InitPhase::AwaitingEnabled, InitAction::ReadStatus)
            } else {
                moved(a, b, act, InitPhase::IdentifyingController, InitAction::Submit(
                    AdminCommand::Identify { cns: CNS_CONTROLLER, nsid: 0, cdw11: 0 },
                    BufferRead::Controller,
                ))
            },
            _ => false,
        },
        InitPhase::Failed | InitPhase::Done => moved(a, b, act, a.phase, InitAction::Finished),
        InitPhase::SettingInterrupts => moved(a, b, act, InitPhase::Done, InitAction::Finished),
        _ => match *e {
            InitEvent::Completed { dw0, status, data } => if !succeeded(status) {
                moved(a, b, act, InitPhase::Failed, InitAction::Fail(InitFailure::CommandFailed(status)))
            } else {
                completed(a, dw0, &data, b, act)
            },
            _ => false,
        },
    }
}

/// The step of the bring-up from `a`, where it waits for an admin command,
/// once the command succeeded with dword 0 `dw0` and the buffer holding
/// `data`.
pub open spec fn completed(a: &NvmeController, dw0: u32, data: &AdminData, b: &NvmeController, act: InitAction) -> bool {
    let csi = a.csis@[a.csi_idx as int];
    let nsid = a.nsids@[a.ns_idx as int];
    match a.phase {
        InitPhase::IdentifyingController => match *data {
            AdminData::Controller(c) => {
                &&& b.identify_ctlr == Some(c)
                &&& b.cap == a.cap && b.config == a.config && b.csis@ == a.csis@ && b.csi_idx == a.csi_idx
                &&& b.nsids@ == a.nsids@ && b.ns_idx == a.ns_idx && b.nvm_base == a.nvm_base
                &&& b.namespaces@ == a.namespaces@ && b.queue_count == a.queue_count
                &&& if (((a.cap.0 >> 37u64) & 0xFF) as u8 >> 6u8) & 1 == 1 {
                    b.phase == InitPhase::ReadingCommandSets && act == InitAction::Submit(
                        AdminCommand::Identify { cns: CNS_CMD_SET, nsid: 0, cdw11: 0 },
                        BufferRead::CommandSets,
                    )
                } else {
                    b.phase == InitPhase::CountingQueues && act == InitAction::Submit(
                        AdminCommand::SetFeatures { fid: FID_NUM_QUEUES, cdw11: queue_request() },
                        BufferRead::Nothing,
                    )
                }
            },
            _ => false,
        },
        InitPhase::ReadingCommandSets => match *data {
            AdminData::CommandSets(cs) => {
                let i = first_nvm_set(cs.iocsc@, 0);
                if i == 512 {
                    moved(a, b, act, InitPhase::Failed, InitAction::Fail(InitFailure::NoCommandSet))
                } else {
                    &&& b.csis@ == seq![0u8]
                    &&& b.csi_idx == 0
                    &&& b.phase == InitPhase::SettingProfile
                    &&& act == InitAction::Submit(
                        AdminCommand::SetFeatures { fid: FID_SET_PROFILE, cdw11: i as u32 },
                        BufferRead::Nothing,
                    )
                    &&& b.cap == a.cap && b.config == a.config && b.identify_ctlr == a.identify_ctlr
                    &&& b.nsids@ == a.nsids@ && b.ns_idx == a.ns_idx && b.nvm_base == a.nvm_base
                    &&& b.namespaces@ == a.namespaces@ && b.queue_count == a.queue_count
                }
            },
            _ => false,
        },
        InitPhase::SettingProfile => same_but_phase(a, b) && (b.phase, act) == list_or_count(a.csis@, a.csi_idx as int),
        InitPhase::ListingNamespaces => match *data {
            AdminData::NamespaceList(l) => {
                &&& ids_listed(l.namespaces@, b.nsids@)
                &&& b.cap == a.cap && b.config == a.config && b.identify_ctlr == a.identify_ctlr
                &&& b.csis@ == a.csis@ && b.nvm_base == a.nvm_base
                &&& b.namespaces@ == a.namespaces@ && b.queue_count == a.queue_count
                &&& b.nsids@.len() > 0 ==> b.csi_idx == a.csi_idx && b.ns_idx == 0
                    && (b.phase, act) == namespace_start(csi, b.nsids@[0])
                &&& b.nsids@.len() == 0 ==> b.csi_idx == a.csi_idx + 1 && b.ns_idx == 0
                    && (b.phase, act) == list_or_count(a.csis@, a.csi_idx + 1)
            },
            _ => false,
        },
        InitPhase::IdentifyingNvm => match *data {
            AdminData::NamespaceNvm(n) => {
                &&& b.nvm_base == Some(n)
                &&& b.cap == a.cap && b.config == a.config && b.identify_ctlr == a.identify_ctlr
                &&& b.csis@ == a.csis@ && b.csi_idx == a.csi_idx && b.nsids@ == a.nsids@
                &&& b.ns_idx == a.ns_idx && b.namespaces@ == a.namespaces@ && b.queue_count == a.queue_count
                &&& b.phase == InitPhase::IdentifyingSpecific
                &&& act == InitAction::Submit(
                    AdminCommand::Identify { cns: CNS_SPECIFIC_NS, nsid, cdw11: ((csi as u32) << 24u32) as u32 },
                    BufferRead::Nothing,
                )
            },
            _ => false,
        },
        InitPhase::IdentifyingSpecific => moved(a, b, act, InitPhase::IdentifyingSpecificController, InitAction::Submit(
            AdminCommand::Identify { cns: CNS_SPECIFIC_CTRLR, nsid: 0, cdw11: ((csi as u32) << 24u32) as u32 },
            BufferRead::Nothing,
        )),
        InitPhase::IdentifyingSpecificController => moved(a, b, act, InitPhase::IdentifyingIndependent, InitAction::Submit(
            AdminCommand::Identify { cns: CNS_NAMESPACE_INDEPENDENT, nsid, cdw11: 0 },
            BufferRead::NamespaceIndependent,
        )),
        InitPhase::IdentifyingIndependent => match *data {
            AdminData::NamespaceIndependent(ind) => {
                &&& b.namespaces@ == a.namespaces@.push(NvmeNamespace { nsid, csi, nvm_base: a.nvm_base, independent: ind })
                &&& b.nvm_base is None
                &&& b.cap == a.cap && b.config == a.config && b.identify_ctlr == a.identify_ctlr
                &&& b.csis@ == a.csis@ && b.nsids@ == a.nsids@ && b.queue_count == a.queue_count
                &&& a.ns_idx + 1 < a.nsids@.len() ==> b.csi_idx == a.csi_idx && b.ns_idx == a.ns_idx + 1
                    && (b.phase, act) == namespace_start(csi, a.nsids@[a.ns_idx + 1])
                &&& a.ns_idx + 1 == a.nsids@.len() ==> b.csi_idx == a.csi_idx + 1 && b.ns_idx == a.ns_idx + 1
                    && (b.phase, act) == list_or_count(a.csis@, a.csi_idx + 1)
            },
            _ => false,
        },
        InitPhase::CountingQueues => {
            &&& b.queue_count as int == vstd::math::min((dw0 / 0x1_0000) as int, (dw0 % 0x1_0000) as int)
            &&& b.cap == a.cap && b.config == a.config && b.identify_ctlr == a.identify_ctlr
            &&& b.csis@ == a.csis@ && b.csi_idx == a.csi_idx && b.nsids@ == a.nsids@
            &&& b.ns_idx == a.ns_idx && b.nvm_base == a.nvm_base && b.namespaces@ == a.namespaces@
            &&& b.phase == InitPhase::SettingInterrupts
            &&& act == InitAction::SetupInterrupts
        },
        _ => false,
    }
}

/// Where the search for a supporting command set combination from `k` on
/// ends, given the first one at `i`.
pub(crate) proof fn lemma_first_nvm_set(s: Seq<u64>, k: int, i: int)
    requires
        0 <= k <= i,
        i <= 512,
        i < 512 ==> s[i] & 1 == 1,
        forall|j: int| k <= j < i ==> #[trigger] s[j] & 1 != 1,
    ensures
        first_nvm_set(s, k) == i,
    decreases i - k,
{
    if k < i {
        lemma_first_nvm_set(s, k + 1, i);
    }
}

impl NvmeController {
    /// The bring-up of a controller with capabilities `cap`, not started:
    /// its first step takes `Done`.
    pub fn new(cap: ControllerCap) -> (r: Self)
        ensures
            r.cap == cap,
            r.phase == InitPhase::Start,
            r.identify_ctlr is None,
            r.csis@ == Seq::<u8>::empty(),
            r.nsids@ == Seq::<u32>::empty(),
            r.namespaces@ == Seq::<NvmeNamespace>::empty(),
            r.wf(),
    {
        NvmeController {
            cap,
            phase: InitPhase::Start,
            config: 0,
            identify_ctlr: None,
            csis: Vec::new(),
            csi_idx: 0,
            nsids: Vec::new(),
            ns_idx: 0,
            nvm_base: None,
            namespaces: Vec::new(),
            queue_count: 0,
        }
    }

    /// The indices stay in their lists: the command set being listed, and
    /// the namespace being identified, exist.
    pub open spec fn wf(&self) -> bool {
        &&& self.csi_idx <= self.csis@.len()
        &&& self.ns_idx <= self.nsids@.len()
        &&& self.phase == InitPhase::ListingNamespaces ==> self.csi_idx < self.csis@.len()
        &&& (self.phase == InitPhase::IdentifyingNvm || self.phase == InitPhase::IdentifyingSpecific
            || self.phase == InitPhase::IdentifyingSpecificController || self.phase
            == InitPhase::IdentifyingIndependent) ==> self.csi_idx < self.csis@.len() && self.ns_idx
            < self.nsids@.len()
    }

    /// Whether `e` is what the last action gives back: a register value
    /// after a read, a completion after a command (with the buffer read as
    /// asked where the command succeeded), nothing otherwise.
    pub open spec fn expects(&self, e: &InitEvent) -> bool {
        match self.phase {
            InitPhase::ReadingConfig | InitPhase::AwaitingDisabled | InitPhase::ReadingConfigAgain
            | InitPhase::AwaitingEnabled => e is Register,
            InitPhase::IdentifyingController => *e matches InitEvent::Completed { status, data, .. }
                && (succeeded(status) ==> data is Controller),
            InitPhase::ReadingCommandSets => *e matches InitEvent::Completed { status, data, .. }
                && (succeeded(status) ==> data is CommandSets),
            InitPhase::ListingNamespaces => *e matches InitEvent::Completed { status, data, .. }
                && (succeeded(status) ==> data is NamespaceList),
            InitPhase::IdentifyingNvm => *e matches InitEvent::Completed { status, data, .. }
                && (succeeded(status) ==> data is NamespaceNvm),
            InitPhase::IdentifyingIndependent => *e matches InitEvent::Completed { status, data, .. }
                && (succeeded(status) ==> data is NamespaceIndependent),
            InitPhase::SettingProfile | InitPhase::IdentifyingSpecific
            | InitPhase::IdentifyingSpecificController | InitPhase::CountingQueues => e is Completed,
            _ => e is Done,
        }
    }

    /// Takes what the last action gave back and says what to do next, as
    /// `stepped` describes.
    pub fn step(&mut self, event: InitEvent) -> (act: InitAction)
        requires
            old(self).wf(),
            old(self).expects(&event),
        ensures
            final(self).wf(),
            stepped(old(self), &event, final(self), act),
    {
        match self.phase {
            InitPhase::Start => {
                self.phase = InitPhase::ReadingConfig;
                InitAction::ReadConfig
            },
            InitPhase::ReadingConfig => {
                let cc = match event {
                    InitEvent::Register(v) => v,
                    _ => {
                        proof {
                            assert(false);
                        }
                        0
                    },
                };
                let mut cfg = ControllerConfig(cc);
                cfg.set_enabled(false);
                self.config = cfg.0;
                self.phase = InitPhase::Disabling;
                InitAction::WriteConfig(cfg.0)
            },
            InitPhase::Disabling => {
                self.phase = InitPhase::AwaitingDisabled;
                InitAction::ReadStatus
            },
            InitPhase::AwaitingDisabled => {
                let csts = match event {
                    InitEvent::Register(v) => v,
                    _ => {
                        proof {
                            assert(false);
                        }
                        0
                    },
                };
                if csts & 1 == 1 {
                    InitAction::ReadStatus
                } else {
                    self.phase = InitPhase::CreatingQueues;
                    InitAction::CreateAdminQueues(0x003F_003F)
                }
            },
            InitPhase::CreatingQueues => {
                self.phase = InitPhase::ReadingConfigAgain;
                InitAction::ReadConfig
            },
            InitPhase::ReadingConfigAgain => {
                let cc = match event {
                    InitEvent::Register(v) => v,
                    _ => {
                        proof {
                            assert(false);
                        }
                        0
                    },
                };
                let cfg = configured(ControllerConfig(cc), &self.cap);
                self.config = cfg.0;
                self.phase = InitPhase::Configuring;
                InitAction::WriteConfig(cfg.0)
            },
            InitPhase::Configuring => {
                let mut cfg = ControllerConfig(self.config);
                cfg.set_enabled(true);
                self.config = cfg.0;
                self.phase = InitPhase::Enabling;
                InitAction::WriteConfig(cfg.0)
            },
            InitPhase::Enabling => {
                self.phase = InitPhase::AwaitingEnabled;
                InitAction::ReadStatus
            },
            InitPhase::AwaitingEnabled => {
                let csts = match event {
                    InitEvent::Register(v) => v,
                    _ => {
                        proof {
                            assert(false);
                        }
                        0
                    },
                };
                if csts & 1 == 0 {
                    InitAction::ReadStatus
                } else {
                    self.phase = InitPhase::IdentifyingController;
                    InitAction::Submit(AdminCommand::Identify { cns: CNS_CONTROLLER, nsid: 0, cdw11: 0 }, BufferRead::Controller)
                }
            },
            InitPhase::SettingInterrupts => {
                self.phase = InitPhase::Done;
                InitAction::Finished
            },
            InitPhase::Done | InitPhase::Failed => InitAction::Finished,
            _ => {
                match event {
                    InitEvent::Completed { dw0, status, data } => {
                        if !Status(status).is_success() {
                            self.phase = InitPhase::Failed;
                            InitAction::Fail(InitFailure::CommandFailed(status))
                        } else {
                            self.on_completed(dw0, data)
                        }
                    },
                    _ => {
                        proof {
                            assert(false);
                        }
                        InitAction::Finished
                    },
                }
            },
        }
    }

    /// The step once the admin command the bring-up waits for succeeded,
    /// with dword 0 `dw0` and the buffer holding `data`.
    fn on_completed(&mut self, dw0: u32, data: AdminData) -> (act: InitAction)
        requires
            old(self).wf(),
            match old(self).phase {
                InitPhase::IdentifyingController => data is Controller,
                InitPhase::ReadingCommandSets => data is CommandSets,
                InitPhase::ListingNamespaces => data is NamespaceList,
                InitPhase::IdentifyingNvm => data is NamespaceNvm,
                InitPhase::IdentifyingIndependent => data is NamespaceIndependent,
                InitPhase::SettingProfile | InitPhase::IdentifyingSpecific
                | InitPhase::IdentifyingSpecificController | InitPhase::CountingQueues => true,
                _ => false,
            },
        ensures
            final(self).wf(),
            completed(old(self), dw0, &data, final(self), act),
    {
        match self.phase {
            InitPhase::IdentifyingController => {
                match data {
                    AdminData::Controller(c) => {
                        self.identify_ctlr = Some(c);
                        if self.cap.css_some() {
                            self.phase = InitPhase::ReadingCommandSets;
                            InitAction::Submit(AdminCommand::Identify { cns: CNS_CMD_SET, nsid: 0, cdw11: 0 }, BufferRead::CommandSets)
                        } else {
                            self.phase = InitPhase::CountingQueues;
                            proof {
                                lemma_command_words();
                            }
                            InitAction::Submit(
                                AdminCommand::SetFeatures { fid: FID_NUM_QUEUES, cdw11: ((IO_QUEUES as u32) << 16) | IO_QUEUES as u32 },
                                BufferRead::Nothing,
                            )
                        }
                    },
                    _ => {
                        proof {
                            assert(false);
                        }
                        InitAction::Finished
                    },
                }
            },
            InitPhase::ReadingCommandSets => {
                match data {
                    AdminData::CommandSets(cs) => {
                        match cs.first_valid() {
                            None => {
                                proof {
                                    lemma_first_nvm_set(cs.iocsc@, 0, 512);
                                }
                                self.phase = InitPhase::Failed;
                                InitAction::Fail(InitFailure::NoCommandSet)
                            },
                            Some(i) => {
                                proof {
                                    lemma_first_nvm_set(cs.iocsc@, 0, i as int);
                                }
                                self.csis = cs.csi_iter(i);
                                self.csi_idx = 0;
                                self.phase = InitPhase::SettingProfile;
                                InitAction::Submit(AdminCommand::SetFeatures { fid: FID_SET_PROFILE, cdw11: i as u32 }, BufferRead::Nothing)
                            },
                        }
                    },
                    _ => {
                        proof {
                            assert(false);
                        }
                        InitAction::Finished
                    },
                }
            },
            InitPhase::SettingProfile => self.list_or_count(),
            InitPhase::ListingNamespaces => {
                match data {
                    AdminData::NamespaceList(l) => {
                        self.nsids = l.valid();
                        self.ns_idx = 0;
                        self.next_namespace()
                    },
                    _ => {
                        proof {
                            assert(false);
                        }
                        InitAction::Finished
                    },
                }
            },
            InitPhase::IdentifyingNvm => {
                match data {
                    AdminData::NamespaceNvm(n) => {
                        let csi = self.csis[self.csi_idx];
                        let nsid = self.nsids[self.ns_idx];
                        self.nvm_base = Some(n);
                        self.phase = InitPhase::IdentifyingSpecific;
                        InitAction::Submit(
                            AdminCommand::Identify { cns: CNS_SPECIFIC_NS, nsid, cdw11: (csi as u32) << 24 },
                            BufferRead::Nothing,
                        )
                    },
                    _ => {
                        proof {
                            assert(false);
                        }
                        InitAction::Finished
                    },
                }
            },
            InitPhase::IdentifyingSpecific => {
                let csi = self.csis[self.csi_idx];
                self.phase = InitPhase::IdentifyingSpecificController;
                InitAction::Submit(
                    AdminCommand::Identify { cns: CNS_SPECIFIC_CTRLR, nsid: 0, cdw11: (csi as u32) << 24 },
                    BufferRead::Nothing,
                )
            },
            InitPhase::IdentifyingSpecificController => {
                let nsid = self.nsids[self.ns_idx];
                self.phase = InitPhase::IdentifyingIndependent;
                InitAction::Submit(
                    AdminCommand::Identify { cns: CNS_NAMESPACE_INDEPENDENT, nsid, cdw11: 0 },
                    BufferRead::NamespaceIndependent,
                )
            },
            InitPhase::IdentifyingIndependent => {
                match data {
                    AdminData::NamespaceIndependent(ind) => {
                        let csi = self.csis[self.csi_idx];
                        let nsid = self.nsids[self.ns_idx];
                        self.namespaces.push(NvmeNamespace { nsid, csi, nvm_base: self.nvm_base, independent: ind });
                        self.nvm_base = None;
                        proof {
                            // The number of namespace ids is a usize.
                            assert(self.nsids@.len() == self.nsids.len());
                        }
                        self.ns_idx = self.ns_idx + 1;
                        self.next_namespace()
                    },
                    _ => {
                        proof {
                            assert(false);
                        }
                        InitAction::Finished
                    },
                }
            },
            _ => {
                proof {
                    crate::util::bits::lemma_u32_split16(dw0);
                }
                let comp = (dw0 >> 16) as u16;
                let subm = dw0 as u16;
                self.queue_count = if comp < subm { comp } else { subm };
                self.phase = InitPhase::SettingInterrupts;
                InitAction::SetupInterrupts
            },
        }
    }

    /// The namespace being identified moves on: the next namespace of the
    /// list, or the next command set, or the I/O queues.
    fn next_namespace(&mut self) -> (act: InitAction)
        requires
            old(self).csi_idx < old(self).csis@.len(),
            old(self).ns_idx <= old(self).nsids@.len(),
        ensures
            final(self).wf(),
            final(self).cap == old(self).cap,
            final(self).config == old(self).config,
            final(self).identify_ctlr == old(self).identify_ctlr,
            final(self).csis@ == old(self).csis@,
            final(self).nsids@ == old(self).nsids@,
            final(self).nvm_base == old(self).nvm_base,
            final(self).namespaces@ == old(self).namespaces@,
            final(self).queue_count == old(self).queue_count,
            old(self).ns_idx < old(self).nsids@.len() ==> {
                &&& final(self).csi_idx == old(self).csi_idx
                &&& final(self).ns_idx == old(self).ns_idx
                &&& (final(self).phase, act) == namespace_start(
                    old(self).csis@[old(self).csi_idx as int],
                    old(self).nsids@[old(self).ns_idx as int],
                )
            },
            old(self).ns_idx == old(self).nsids@.len() ==> {
                &&& final(self).csi_idx == old(self).csi_idx + 1
                &&& final(self).ns_idx == old(self).ns_idx
                &&& (final(self).phase, act) == list_or_count(old(self).csis@, old(self).csi_idx + 1)
            },
    {
        if self.ns_idx < self.nsids.len() {
            let csi = self.csis[self.csi_idx];
            let nsid = self.nsids[self.ns_idx];
            if is_csi_nvm_based(csi) {
                self.phase = InitPhase::IdentifyingNvm;
                InitAction::Submit(AdminCommand::Identify { cns: CNS_NAMESPACE, nsid, cdw11: 0 }, BufferRead::NamespaceNvm)
            } else {
                self.phase = InitPhase::IdentifyingSpecific;
                InitAction::Submit(
                    AdminCommand::Identify { cns: CNS_SPECIFIC_NS, nsid, cdw11: (csi as u32) << 24 },
                    BufferRead::Nothing,
                )
            }
        } else {
            proof {
                // The number of command sets is a usize.
                assert(self.csis@.len() == self.csis.len());
            }
            self.csi_idx = self.csi_idx + 1;
            self.list_or_count()
        }
    }

    /// The namespaces of the command set `csi_idx` are listed next, or, past
    /// the last command set, the I/O queues are asked for.
    fn list_or_count(&mut self) -> (act: InitAction)
        requires
            old(self).csi_idx <= old(self).csis@.len(),
            old(self).ns_idx <= old(self).nsids@.len(),
        ensures
            final(self).wf(),
            same_but_phase(old(self), final(self)),
            (final(self).phase, act) == list_or_count(old(self).csis@, old(self).csi_idx as int),
    {
        if self.csi_idx < self.csis.len() {
            let csi = self.csis[self.csi_idx];
            self.phase = InitPhase::ListingNamespaces;
            InitAction::Submit(
                AdminCommand::Identify { cns: CNS_ACTIVE_NS_CMD_SET, nsid: 0, cdw11: (csi as u32) << 24 },
                BufferRead::NamespaceList,
            )
        } else {
            self.phase = InitPhase::CountingQueues;
            proof {
                lemma_command_words();
            }
            InitAction::Submit(
                AdminCommand::SetFeatures { fid: FID_NUM_QUEUES, cdw11: ((IO_QUEUES as u32) << 16) | IO_QUEUES as u32 },
                BufferRead::Nothing,
            )
        }
    }
}

} // verus!

verus! {

/// The command words and feature values the bring-ups use: the Identify
/// and Set Features opcodes with the data transfer bit, and the queue
/// counts asked for.
pub(crate) proof fn lemma_command_words()
    by (bit_vector)
    ensures
        6u32 | (1u32 << 16u32) == 0x1_0006u32,
        9u32 | (1u32 << 16u32) == 0x1_0009u32,
        (2u32 << 16u32) | 2u32 == 0x0002_0002u32,
        (1u32 << 16u32) | 1u32 == 0x0001_0001u32,
        6u32 | 0x1_0000u32 == 0x1_0006u32,
        9u32 | 0x1_0000u32 == 0x1_0009u32,
        1u32 | 0x1_0000u32 == 0x1_0001u32,
        5u32 | 0x1_0000u32 == 0x1_0005u32,
{
}

/// The enable bit of the configuration values the bring-up writes.
pub(crate) proof fn lemma_enable_bit(x: u32, v: u32)
    by (bit_vector)
    ensures
        with_field(x, 0, 0x1, 0) & 1 == 0,
        with_field(x, 0, 0x1, 1) & 1 == 1,
        with_field(x, 20, 0xF, v) & 1 == x & 1,
        with_field(x, 16, 0xF, v) & 1 == x & 1,
{
}

/// A failed admin command stops the bring-up: whichever command the
/// bring-up waits for, a completion with a status other than success makes
/// it fail with that status.
pub proof fn lemma_failed_command_stops(a: &NvmeController, dw0: u32, status: u16, data: AdminData, b: &NvmeController, act: InitAction)
    requires
        a.expects(&InitEvent::Completed { dw0, status, data }),
        !succeeded(status),
        stepped(a, &InitEvent::Completed { dw0, status, data }, b, act),
    ensures
        b.phase == InitPhase::Failed,
        act == InitAction::Fail(InitFailure::CommandFailed(status)),
{
}

/// The controller is enabled only once it was seen disabled and given its
/// admin queues: the only step that writes a configuration with the enable
/// bit set comes from `Configuring`, which only `ReadingConfigAgain` leads
/// to, which only `CreatingQueues` leads to, which only a status read
/// showing the controller disabled leads to.
pub proof fn lemma_enable_after_admin_queues(a: &NvmeController, e: InitEvent, b: &NvmeController, act: InitAction)
    requires
        a.wf(),
        a.expects(&e),
        stepped(a, &e, b, act),
    ensures
        (act matches InitAction::WriteConfig(v) && v & 1 == 1) ==> a.phase == InitPhase::Configuring,
        b.phase == InitPhase::Configuring && a.phase != InitPhase::Configuring ==> a.phase == InitPhase::ReadingConfigAgain,
        b.phase == InitPhase::ReadingConfigAgain && a.phase != InitPhase::ReadingConfigAgain ==> a.phase == InitPhase::CreatingQueues,
        b.phase == InitPhase::CreatingQueues && a.phase != InitPhase::CreatingQueues ==> a.phase == InitPhase::AwaitingDisabled
            && (e matches InitEvent::Register(csts) && csts & 1 == 0),
{
    match e {
        InitEvent::Register(v) => {
            crate::util::bits::lemma_u32_and_le(v, 1);
            lemma_enable_bit(v, 0);
            // The fields of the configured value, up to the enable bit's.
            let f1 = with_field(v, 4, 0x7, css_selector_for_cap(a));
            let f2 = with_field(f1, 11, 0b111, 0);
            let f3 = with_field(f2, 7, 0xF, 0);
            let f4 = with_field(f3, 0, 0x1, 0);
            let f5 = with_field(f4, 20, 0xF, 4);
            lemma_enable_bit(f3, 0);
            lemma_enable_bit(f4, 4);
            lemma_enable_bit(f5, 6);
        },
        _ => {
            lemma_enable_bit(a.config, 0);
        },
    }
}

/// The command set selector the bring-up configures for `a`'s controller.
spec fn css_selector_for_cap(a: &NvmeController) -> u32 {
    crate::filesystem::drivers::nvme::css_selector_for(a.cap.0) as u32
}

/// The namespaces found are never dropped or changed: each step keeps
/// them, and adds at most one at the end.
pub proof fn lemma_namespaces_grow(a: &NvmeController, e: InitEvent, b: &NvmeController, act: InitAction)
    requires
        a.wf(),
        a.expects(&e),
        stepped(a, &e, b, act),
    ensures
        a.namespaces@.is_prefix_of(b.namespaces@),
        b.namespaces@.len() <= a.namespaces@.len() + 1,
{
    assert(a.namespaces@.is_prefix_of(a.namespaces@)) by {
        assert(a.namespaces@.subrange(0, a.namespaces@.len() as int) =~= a.namespaces@);
    }
    if b.namespaces@.len() == a.namespaces@.len() + 1 {
        assert(b.namespaces@.subrange(0, a.namespaces@.len() as int) =~= a.namespaces@);
    }
}

} // verus!
