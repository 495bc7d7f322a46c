use kernel::filesystem::drivers::controller::{
    AdminCommand, AdminData, BufferRead, InitAction, InitEvent, InitFailure, InitPhase, NvmeController,
};
use kernel::filesystem::drivers::nvme::{
    CQEntry, ControllerCap, IdentifyCommandSet, IdentifyController, IdentifyNamespaceIndependent,
    IdentifyNamespaceList, IdentifyNamespaceNvm, LbaFormat, SQEntry,
};

fn identify_controller() -> IdentifyController {
    IdentifyController { vid: 0x1b36, ssvid: 0x1af4, sn: [b'1'; 20], mn: [b'Q'; 40], fr: [b'1'; 8], rab: 0 }
}

fn namespace_nvm() -> IdentifyNamespaceNvm {
    IdentifyNamespaceNvm {
        nsze: 0x1000,
        ncap: 0x1000,
        nuse: 0x1000,
        nsfeat: 0,
        nlbaf: 0,
        flbas: 0,
        _reserved: [0; 73],
        lbaf: [LbaFormat { ms: 0, lbads: 9, rp: 0 }; 64],
        _pad: [0; 3740],
    }
}

fn independent() -> IdentifyNamespaceIndependent {
    IdentifyNamespaceIndependent {
        nsfeat: 0,
        nmic: 0,
        rescap: 0,
        fpi: 0,
        anagrpid: 0,
        nsattr: 0,
        _reserved: 0,
        nvmsetid: 0,
        endgid: 0,
        nstat: 1,
        _reserved2: [0; 4081],
    }
}

fn ok(data: AdminData) -> InitEvent {
    InitEvent::Completed { dw0: 0, status: 0x0001, data }
}

fn identify(cns: u32, nsid: u32, cdw11: u32, read: BufferRead) -> InitAction {
    InitAction::Submit(AdminCommand::Identify { cns, nsid, cdw11 }, read)
}

/// Steps a controller that supports several command sets up to the point
/// where it asks for its command sets.
fn up_to_command_sets() -> NvmeController {
    let mut c = NvmeController::new(ControllerCap(1u64 << 43));
    assert_eq!(c.step(InitEvent::Done), InitAction::ReadConfig);
    assert_eq!(c.step(InitEvent::Register(0x0046_0001)), InitAction::WriteConfig(0x0046_0000));
    assert_eq!(c.step(InitEvent::Done), InitAction::ReadStatus);
    assert_eq!(c.step(InitEvent::Register(1)), InitAction::ReadStatus);
    assert_eq!(c.step(InitEvent::Register(0)), InitAction::CreateAdminQueues(0x003F_003F));
    assert_eq!(c.step(InitEvent::Done), InitAction::ReadConfig);
    assert_eq!(c.step(InitEvent::Register(0)), InitAction::WriteConfig(0x0046_0060));
    assert_eq!(c.step(InitEvent::Done), InitAction::WriteConfig(0x0046_0061));
    assert_eq!(c.step(InitEvent::Done), InitAction::ReadStatus);
    assert_eq!(c.step(InitEvent::Register(0)), InitAction::ReadStatus);
    assert_eq!(c.step(InitEvent::Register(1)), identify(0x1, 0, 0, BufferRead::Controller));
    assert_eq!(c.step(ok(AdminData::Controller(identify_controller()))), identify(0x1C, 0, 0, BufferRead::CommandSets));
    c
}

#[test]
fn bring_up_finds_namespace() {
    let mut c = up_to_command_sets();
    let mut sets = [0u64; 512];
    sets[0] = 0b100;
    sets[1] = 0b1;
    assert_eq!(
        c.step(ok(AdminData::CommandSets(IdentifyCommandSet { iocsc: sets }))),
        InitAction::Submit(AdminCommand::SetFeatures { fid: 0x19, cdw11: 1 }, BufferRead::Nothing)
    );
    assert_eq!(c.step(ok(AdminData::Nothing)), identify(0x7, 0, 0, BufferRead::NamespaceList));
    let mut list = [0u32; 1024];
    list[0] = 5;
    assert_eq!(
        c.step(ok(AdminData::NamespaceList(IdentifyNamespaceList { namespaces: list }))),
        identify(0x0, 5, 0, BufferRead::NamespaceNvm)
    );
    assert_eq!(c.step(ok(AdminData::NamespaceNvm(namespace_nvm()))), identify(0x5, 5, 0, BufferRead::Nothing));
    assert_eq!(c.step(ok(AdminData::Nothing)), identify(0x6, 0, 0, BufferRead::Nothing));
    assert_eq!(c.step(ok(AdminData::Nothing)), identify(0x8, 5, 0, BufferRead::NamespaceIndependent));
    assert_eq!(
        c.step(ok(AdminData::NamespaceIndependent(independent()))),
        InitAction::Submit(AdminCommand::SetFeatures { fid: 0x07, cdw11: 0x0002_0002 }, BufferRead::Nothing)
    );
    assert_eq!(
        c.step(InitEvent::Completed { dw0: 0x0003_0001, status: 0x0001, data: AdminData::Nothing }),
        InitAction::SetupInterrupts
    );
    assert_eq!(c.step(InitEvent::Done), InitAction::Finished);
    assert_eq!(c.phase, InitPhase::Done);
    assert_eq!(c.queue_count, 1);
    assert_eq!(c.namespaces.len(), 1);
    assert_eq!(c.namespaces[0].nsid, 5);
    assert_eq!(c.namespaces[0].csi, 0);
    assert_eq!(c.namespaces[0].nvm_base.map(|n| n.nsze), Some(0x1000));
    assert_eq!(c.namespaces[0].independent.nstat, 1);
    assert_eq!(c.identify_ctlr.map(|i| i.vid), Some(0x1b36));
}

#[test]
fn bring_up_without_namespaces_counts_queues() {
    let mut c = up_to_command_sets();
    let mut sets = [0u64; 512];
    sets[0] = 0b1;
    assert_eq!(
        c.step(ok(AdminData::CommandSets(IdentifyCommandSet { iocsc: sets }))),
        InitAction::Submit(AdminCommand::SetFeatures { fid: 0x19, cdw11: 0 }, BufferRead::Nothing)
    );
    assert_eq!(c.step(ok(AdminData::Nothing)), identify(0x7, 0, 0, BufferRead::NamespaceList));
    assert_eq!(
        c.step(ok(AdminData::NamespaceList(IdentifyNamespaceList { namespaces: [0; 1024] }))),
        InitAction::Submit(AdminCommand::SetFeatures { fid: 0x07, cdw11: 0x0002_0002 }, BufferRead::Nothing)
    );
    assert!(c.namespaces.is_empty());
}

#[test]
fn bring_up_fails_without_nvm_command_set() {
    let mut c = up_to_command_sets();
    assert_eq!(
        c.step(ok(AdminData::CommandSets(IdentifyCommandSet { iocsc: [0b10; 512] }))),
        InitAction::Fail(InitFailure::NoCommandSet)
    );
    assert_eq!(c.phase, InitPhase::Failed);
}

#[test]
fn bring_up_stops_on_failed_command() {
    let mut c = up_to_command_sets();
    let status = (1 << 9) | (2 << 1) | 1;
    assert_eq!(
        c.step(InitEvent::Completed { dw0: 0, status, data: AdminData::Nothing }),
        InitAction::Fail(InitFailure::CommandFailed(status))
    );
}

#[test]
fn bring_up_of_single_command_set_controller_skips_namespaces() {
    let mut c = NvmeController::new(ControllerCap(0));
    c.step(InitEvent::Done);
    c.step(InitEvent::Register(0));
    c.step(InitEvent::Done);
    c.step(InitEvent::Register(0));
    c.step(InitEvent::Done);
    assert_eq!(c.step(InitEvent::Register(0)), InitAction::WriteConfig(0x0046_0000));
    c.step(InitEvent::Done);
    c.step(InitEvent::Done);
    assert_eq!(c.step(InitEvent::Register(1)), identify(0x1, 0, 0, BufferRead::Controller));
    assert_eq!(
        c.step(ok(AdminData::Controller(identify_controller()))),
        InitAction::Submit(AdminCommand::SetFeatures { fid: 0x07, cdw11: 0x0002_0002 }, BufferRead::Nothing)
    );
}

#[test]
fn admin_command_entries() {
    let e = AdminCommand::Identify { cns: 0x1C, nsid: 3, cdw11: 1 << 24 }.entry(0x8000);
    assert_eq!((e.cdw0, e.nsid, e.prp1, e.cdw10, e.cdw11), (0x1_0006, 3, 0x8000, 0x1C, 1 << 24));
    let f = AdminCommand::SetFeatures { fid: 0x07, cdw11: 0x0002_0002 }.entry(0x9000);
    assert_eq!((f.cdw0, f.nsid, f.prp1, f.cdw10, f.cdw11), (0x1_0009, 0, 0x9000, 0x07, 0x0002_0002));
}

#[test]
fn submission_entry_bytes() {
    let mut e = SQEntry::default();
    e.cdw0 = 0x1_0006;
    e.nsid = 7;
    e.prp1 = 0x1122_3344_5566_7788;
    e.cdw10 = 0x1C;
    e.cdw15 = 0xDEAD_BEEF;
    let b = e.to_bytes();
    assert_eq!(b.len(), 64);
    assert_eq!(&b[0..4], &[0x06, 0x00, 0x01, 0x00]);
    assert_eq!(&b[4..8], &[7, 0, 0, 0]);
    assert_eq!(&b[24..32], &[0x88, 0x77, 0x66, 0x55, 0x44, 0x33, 0x22, 0x11]);
    assert_eq!(&b[40..44], &[0x1C, 0, 0, 0]);
    assert_eq!(&b[60..64], &[0xEF, 0xBE, 0xAD, 0xDE]);
    assert!(b[8..24].iter().all(|&x| x == 0));
}

#[test]
fn completion_entry_from_bytes() {
    let b = [0x02, 0x00, 0x03, 0x00, 0, 0, 0, 0, 5, 0, 1, 0, 9, 0, 0x01, 0x00];
    let c = CQEntry::from_bytes(&b);
    assert_eq!(c.dw0, 0x0003_0002);
    assert_eq!(c.sq_head, 5);
    assert_eq!(c.sq_id, 1);
    assert_eq!(c.cid, 9);
    assert!(c.status.phase_tag());
    assert!(c.status.is_success());
}

#[test]
fn identify_data_from_bytes() {
    let mut b = vec![0u8; 4096];
    b[0] = 0x36;
    b[1] = 0x1b;
    b[4] = b'S';
    b[24] = b'M';
    b[72] = 6;
    let c = IdentifyController::from_bytes(&b);
    assert_eq!(c.vid, 0x1b36);
    assert_eq!(c.sn[0], b'S');
    assert_eq!(c.mn[0], b'M');
    assert_eq!(c.rab, 6);

    let mut l = vec![0u8; 4096];
    l[0] = 1;
    l[4] = 0x02;
    l[5] = 0x01;
    let list = IdentifyNamespaceList::from_bytes(&l);
    assert_eq!(list.namespaces[0], 1);
    assert_eq!(list.namespaces[1], 0x102);
    assert_eq!(list.valid(), vec![1, 0x102]);

    let mut s = vec![0u8; 4096];
    s[8 * 3] = 1;
    let sets = IdentifyCommandSet::from_bytes(&s);
    assert_eq!(sets.first_valid(), Some(3));

    let mut n = vec![0u8; 4096];
    n[0] = 0x00;
    n[1] = 0x10;
    n[26] = 1; // the second LBA format
    n[100 + 4 + 2] = 12;
    let ns = IdentifyNamespaceNvm::from_bytes(&n);
    assert_eq!(ns.nsze, 0x1000);
    assert_eq!(ns.flbas, 1);
    assert_eq!(ns.lbaf[1].lbads, 12);
    assert_eq!(ns.block_size(), 4096);

    let mut i = vec![0u8; 4096];
    i[4] = 3;
    i[14] = 1;
    let ind = IdentifyNamespaceIndependent::from_bytes(&i);
    assert_eq!(ind.anagrpid, 3);
    assert_eq!(ind.nstat, 1);
}
