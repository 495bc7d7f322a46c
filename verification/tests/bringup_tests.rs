use kernel::filesystem::block::nvme::bringup::{
    BringUpAction, BringUpCommand, BringUpEvent, BringUpFailure, BringUpPhase, BufferData, BufferKind, NvmeController,
};
use kernel::filesystem::block::nvme::commands::{
    ControllerCap, CreateCompletionQueueCommand, CreateSubmissionQueueCommand, IdentifyCommand, IdentifyCommandSet,
    IdentifyController, SetFeaturesCommand,
};
use kernel::filesystem::block::nvme::namespace::{
    IdentifyNamespaceIndependent, IdentifyNamespaceList, IdentifyNamespaceNvm, IdentifyNamespaceSpecificNvm, LbaFormat,
    NvmNamespaceData, NvmeCommandSet, NvmeNamespace,
};
use kernel::io::block::BlockDeviceError;

const BUF: u64 = 0x7000;

fn identify(cns: u32, nsid: u32, cdw11: u32, read: BufferKind) -> BringUpAction {
    BringUpAction::Submit(BringUpCommand::Identify(IdentifyCommand { cns, nsid, cdw11, prp: BUF }), read)
}

fn set_features(fid: u32, cdw11: u32) -> BringUpAction {
    BringUpAction::Submit(BringUpCommand::SetFeatures(SetFeaturesCommand { fid, prp: BUF, cdw11 }), BufferKind::Nothing)
}

fn done(data: BufferData) -> BringUpEvent {
    BringUpEvent::Completed { dw0: 0, status: 0x0001, data }
}

fn nvm() -> IdentifyNamespaceNvm {
    IdentifyNamespaceNvm {
        nsze: 0x2000,
        ncap: 0x2000,
        nuse: 0,
        nsfeat: 0,
        nlbaf: 0,
        flbas: 0,
        _reserved: [0; 73],
        lbaf: [LbaFormat { ms: 0, lbads: 12, rp: 0 }; 64],
        _pad: [0; 3740],
    }
}

fn independent() -> IdentifyNamespaceIndependent {
    IdentifyNamespaceIndependent {
        nsfeat: 0,
        nmic: 0,
        rescap: 0,
        fpi: 0,
        anagrpid: 0,
        nsattr: 0,
        _reserved: 0,
        nvmsetid: 0,
        endgid: 0,
        nstat: 0,
        _reserved2: [0; 4081],
    }
}

/// Steps a controller up to the Number of Queues feature.
fn up_to_queue_count() -> NvmeController {
    let mut c = NvmeController::new(ControllerCap(0));
    assert_eq!(c.step(BringUpEvent::Done), BringUpAction::ReadConfig);
    assert_eq!(c.step(BringUpEvent::Register(0x0000_0001)), BringUpAction::WriteConfig(0));
    assert_eq!(c.step(BringUpEvent::Done), BringUpAction::ReadStatus);
    assert_eq!(c.step(BringUpEvent::Register(0)), BringUpAction::CreateAdminQueues(0x003F_003F));
    assert_eq!(c.step(BringUpEvent::AdminQueues(BUF)), BringUpAction::ReadConfig);
    assert_eq!(c.step(BringUpEvent::Register(0)), BringUpAction::WriteConfig(0x0046_0000));
    assert_eq!(c.step(BringUpEvent::Done), BringUpAction::WriteConfig(0x0046_0001));
    assert_eq!(c.step(BringUpEvent::Done), BringUpAction::ReadStatus);
    assert_eq!(c.step(BringUpEvent::Register(1)), identify(0x1, 0, 0, BufferKind::Controller));
    let ctrl = IdentifyController { vid: 1, ssvid: 2, sn: [0; 20], mn: [0; 40], fr: [0; 8], rab: 0 };
    assert_eq!(c.step(done(BufferData::Controller(ctrl))), set_features(0x07, 0x0001_0001));
    c
}

#[test]
fn bring_up_creates_pairs_and_deals_out_namespaces() {
    let mut c = up_to_queue_count();
    // Three completion and two submission queues granted (0-based): two pairs.
    assert_eq!(
        c.step(BringUpEvent::Completed { dw0: 0x0002_0001, status: 1, data: BufferData::Nothing }),
        BringUpAction::AllocateQueue(1024)
    );
    for id in 1..=2u16 {
        let phys = 0x10_0000 * id as u64;
        assert_eq!(
            c.step(BringUpEvent::Allocated(phys)),
            BringUpAction::Submit(
                BringUpCommand::CreateCompletionQueue(CreateCompletionQueueCommand {
                    prp: phys,
                    cdw10: id as u32 | (63 << 16),
                    cdw11: 0x3 | ((id as u32) << 16),
                }),
                BufferKind::Nothing
            )
        );
        assert_eq!(c.step(done(BufferData::Nothing)), BringUpAction::AllocateQueue(4096));
        assert_eq!(
            c.step(BringUpEvent::Allocated(phys + 0x1000)),
            BringUpAction::Submit(
                BringUpCommand::CreateSubmissionQueue(CreateSubmissionQueueCommand {
                    prp: phys + 0x1000,
                    cdw10: id as u32 | (63 << 16),
                    cdw11: 0x1 | ((id as u32) << 16),
                }),
                BufferKind::Nothing
            )
        );
        assert_eq!(c.step(done(BufferData::Nothing)), BringUpAction::AddQueuePair(id));
        let next = c.step(BringUpEvent::Done);
        if id == 1 {
            assert_eq!(next, BringUpAction::AllocateQueue(1024));
        } else {
            assert_eq!(next, identify(0x1C, 0, 0, BufferKind::CommandSets));
        }
    }
    assert_eq!(c.io_queues, 2);
    let mut sets = [0u64; 512];
    sets[2] = 1;
    assert_eq!(c.step(done(BufferData::CommandSets(IdentifyCommandSet { iocsc: sets }))), set_features(0x19, 2));
    assert_eq!(c.step(done(BufferData::Nothing)), identify(0x7, 0, 0, BufferKind::NamespaceList));
    let mut list = [0u32; 1024];
    list[0] = 1;
    list[1] = 2;
    list[2] = 9;
    assert_eq!(
        c.step(done(BufferData::NamespaceList(IdentifyNamespaceList { namespaces: list }))),
        identify(0x0, 1, 0, BufferKind::NamespaceNvm)
    );
    for (k, nsid) in [1u32, 2, 9].iter().enumerate() {
        assert_eq!(c.step(done(BufferData::NamespaceNvm(nvm()))), identify(0x5, *nsid, 0, BufferKind::NamespaceSpecific));
        assert_eq!(
            c.step(done(BufferData::NamespaceSpecific(IdentifyNamespaceSpecificNvm { _todo: [0; 4096] }))),
            identify(0x6, 0, 0, BufferKind::Nothing)
        );
        assert_eq!(c.step(done(BufferData::Nothing)), identify(0x8, *nsid, 0, BufferKind::NamespaceIndependent));
        let next = c.step(done(BufferData::NamespaceIndependent(independent())));
        match k {
            0 => assert_eq!(next, identify(0x0, 2, 0, BufferKind::NamespaceNvm)),
            1 => assert_eq!(next, identify(0x0, 9, 0, BufferKind::NamespaceNvm)),
            _ => assert_eq!(next, BringUpAction::SetupInterrupts(2)),
        }
    }
    assert_eq!(c.step(BringUpEvent::Done), BringUpAction::Finished);
    assert_eq!(c.phase, BringUpPhase::Done);
    let queues: Vec<usize> = c.namespaces.iter().map(|n| n.queue).collect();
    assert_eq!(queues, vec![0, 1, 0]);
    let ids: Vec<u32> = c.namespaces.iter().map(|n| n.nsid).collect();
    assert_eq!(ids, vec![1, 2, 9]);
    match &c.namespaces[0].command_set {
        NvmeCommandSet::Nvm(d) => assert_eq!(d.identify.nsze, 0x2000),
        _ => panic!("expected an NVM namespace"),
    }
}

#[test]
fn bring_up_stops_when_queue_creation_fails() {
    let mut c = up_to_queue_count();
    assert_eq!(
        c.step(BringUpEvent::Completed { dw0: 0, status: 1, data: BufferData::Nothing }),
        BringUpAction::AllocateQueue(1024)
    );
    c.step(BringUpEvent::Allocated(0x9000));
    let status = (1 << 9) | (1 << 1) | 1;
    assert_eq!(
        c.step(BringUpEvent::Completed { dw0: 0, status, data: BufferData::Nothing }),
        BringUpAction::Fail(BringUpFailure::CompletionQueueFailed(status))
    );
}

#[test]
fn bring_up_without_nvm_command_set_fails() {
    let mut c = up_to_queue_count();
    c.step(BringUpEvent::Completed { dw0: 0, status: 1, data: BufferData::Nothing });
    c.step(BringUpEvent::Allocated(0x9000));
    c.step(done(BufferData::Nothing));
    c.step(BringUpEvent::Allocated(0xA000));
    c.step(done(BufferData::Nothing));
    assert_eq!(c.step(BringUpEvent::Done), identify(0x1C, 0, 0, BufferKind::CommandSets));
    assert_eq!(
        c.step(done(BufferData::CommandSets(IdentifyCommandSet { iocsc: [0; 512] }))),
        BringUpAction::Fail(BringUpFailure::NoCommandSet)
    );
}

fn namespace() -> NvmeNamespace {
    NvmeNamespace {
        queue: 0,
        nsid: 1,
        command_set: NvmeCommandSet::Nvm(NvmNamespaceData {
            identify: nvm(),
            specific: IdentifyNamespaceSpecificNvm { _todo: [0; 4096] },
        }),
        independent: independent(),
    }
}

#[test]
fn namespace_read_requests() {
    let ns = namespace();
    assert_eq!(ns.block_size(), 4096);
    assert_eq!(ns.block_count(), 0x2000);
    assert!(matches!(ns.read_blocks(0, 8192), Ok(2)));
    assert!(matches!(ns.read_blocks(0x1FFF, 8192), Err(BlockDeviceError::InvalidRange { lba: 0x1FFF, count: 2 })));
    assert!(matches!(ns.read_blocks(0, 100), Err(BlockDeviceError::NotAligned)));
    assert!(NvmeNamespace::read_result(0x0001).is_ok());
    assert!(matches!(NvmeNamespace::read_result(0x0005), Err(BlockDeviceError::IoError)));
}
