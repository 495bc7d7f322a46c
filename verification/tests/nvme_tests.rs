use kernel::filesystem::block::nvme::namespace::read_block_count;
use kernel::filesystem::block::nvme::queue::{QueueKind, RingQueueState, Submission, Completion};
use kernel::filesystem::block::nvme::{
    admin_queue_attributes, configured, io_comp_queue_command, io_subm_queue_command,
    is_csi_nvm_based, namespace_queue_index, num_queues_request, queue_count_from_features,
    namespace_device_id, select_command_set_selector,
};
use kernel::filesystem::block::{BlockDevice, BlockDeviceRegistry};
use kernel::filesystem::drivers::nvme::{AmsType, ControllerCap, ControllerConfig, IdentifyNamespaceList, Status};
use kernel::io::block::{capacity, validate_range, BlockDeviceError, DeviceId};

#[test]
fn config_fields_round_trip() {
    let mut cc = ControllerConfig(0xFFFF_FFFF);
    cc.set_css(0b010);
    assert_eq!(cc.css(), 0b010);
    cc.set_enabled(false);
    assert_eq!(cc.raw() & 1, 0);
    assert_eq!(cc.css(), 0b010);
    cc.set_iosqes(6).set_iocqes(4).set_mps(0).set_ams(AmsType::RoundRobin);
    assert_eq!(cc.raw(), 0xFF46C02E);
    assert_eq!(cc.css(), 0b010);
    cc.set_raw(0);
    cc.set_enabled(true);
    assert_eq!(cc.raw(), 1);
}

#[test]
fn capability_fields() {
    // DSTRD 1, MQES 0x3FF, TO 0x28, MPSMIN 0, CSS: NVM and more.
    let cap = ControllerCap((0x41u64 << 37) | (1 << 32) | (0x28 << 24) | 0x3FF);
    assert_eq!(cap.dstrd(), 1);
    assert_eq!(cap.mqes(), 0x3FF);
    assert_eq!(cap.to(), 0x28);
    assert_eq!(cap.mpsmin(), 0);
    assert_eq!(cap.css(), 0x41);
    assert!(cap.css_nvm());
    assert!(cap.css_some());
    assert!(!cap.css_none());
    assert_eq!(select_command_set_selector(&cap), 0b110);
    assert_eq!(select_command_set_selector(&ControllerCap(1u64 << 44)), 0b111);
    assert_eq!(select_command_set_selector(&ControllerCap(1u64 << 37)), 0);
}

#[test]
fn configuration_before_enabling() {
    let cap = ControllerCap(1u64 << 37);
    let cc = configured(ControllerConfig(0x0000_0001), &cap);
    // CSS 0, AMS round robin, MPS 0, disabled, CQES 4, SQES 6.
    assert_eq!(cc.raw(), 0x0046_0000);
}

#[test]
fn completion_status() {
    let ok = Status(0x0001);
    assert!(ok.phase_tag());
    assert!(ok.is_success());
    let err = Status((2 << 9) | (0x0B << 1) | 0x8000);
    assert!(!err.phase_tag());
    assert_eq!(err.code(), 0x0B);
    assert_eq!(err.code_type(), 2);
    assert!(err.do_not_retry());
    assert!(!err.more());
    assert!(!err.is_success());
}

#[test]
fn queue_setup_values() {
    assert_eq!(num_queues_request(), 0x0001_0001);
    assert_eq!(queue_count_from_features(0x0003_0007), 2);
    assert_eq!(queue_count_from_features(0x0000_0003), 1);
    let asq = RingQueueState::new(63);
    let acq = RingQueueState::new(31);
    assert_eq!(admin_queue_attributes(&asq, &acq), 0x001F_003F);
    let s = io_subm_queue_command(0x1000, 64, 1, 1);
    assert_eq!((s.prp, s.cdw10, s.cdw11), (0x1000, 0x003F_0001, 0x0001_0001));
    let c = io_comp_queue_command(0x2000, 64, 2, 5);
    assert_eq!((c.prp, c.cdw10, c.cdw11), (0x2000, 0x003F_0002, 0x0005_0003));
    assert_eq!(namespace_queue_index(5, 2), 1);
    assert!(is_csi_nvm_based(0));
    assert!(is_csi_nvm_based(3));
    assert!(!is_csi_nvm_based(1));
}

#[test]
fn doorbells() {
    assert_eq!(Submission::doorbell(0, 0), 0x1000);
    assert_eq!(Completion::doorbell(0, 0), 0x1004);
    assert_eq!(Submission::doorbell(1, 1), 0x1010);
    assert_eq!(Completion::doorbell(1, 1), 0x1018);
}

#[test]
fn ring_queue_moves() {
    let mut q = RingQueueState::new(2);
    assert!(q.phase);
    q.advance_tail();
    q.advance_tail();
    assert_eq!(q.tail, 0);
    q.advance_head();
    q.advance_head();
    assert_eq!(q.head, 2);
    assert!(q.phase);
    q.advance_head();
    assert_eq!(q.head, 0);
    assert!(!q.phase);
}

#[test]
fn namespace_list_stops_at_zero() {
    let mut l = IdentifyNamespaceList { namespaces: [0; 1024] };
    l.namespaces[0] = 1;
    l.namespaces[1] = 4;
    l.namespaces[3] = 9;
    assert_eq!(l.valid(), vec![1, 4]);
}

#[test]
fn block_ranges() {
    assert_eq!(capacity(512, 1000), 512_000);
    assert!(matches!(validate_range(512, 100, 10, 1024), Ok(2)));
    assert!(matches!(validate_range(512, 100, 10, 1000), Err(BlockDeviceError::NotAligned)));
    assert!(matches!(
        validate_range(512, 100, 99, 1024),
        Err(BlockDeviceError::InvalidRange { lba: 99, count: 2 })
    ));
    assert!(matches!(read_block_count(99, 1000, 512, 100), Err(BlockDeviceError::NotAligned)));
    assert!(matches!(
        read_block_count(99, 1024, 512, 100),
        Err(BlockDeviceError::InvalidRange { lba: 99, count: 2 })
    ));
    assert!(matches!(read_block_count(0, 4096, 512, 100), Ok(8)));
    assert_eq!(DeviceId::new("nvme0n1".to_string()).0, "nvme0n1");
}

#[test]
fn status_text() {
    assert_eq!(Status(0x0001).to_string(), "0b0000000000000001 (type=0, code=0, success=true)");
    assert_eq!(
        Status((2 << 9) | (0x0B << 1)).to_string(),
        "0b0000010000010110 (type=2, code=11, success=false)"
    );
}

#[test]
fn namespace_ids() {
    assert_eq!(namespace_device_id(0, 1).0, "nvme0n1");
    assert_eq!(namespace_device_id(12, 345).0, "nvme12n345");
}

#[test]
fn registry_counts_per_type() {
    let mut registry: BlockDeviceRegistry<u32> = BlockDeviceRegistry::new();
    assert_eq!(registry.count(), 0);
    let first = registry.register("nvme", 7, 512, 1000);
    let second = registry.register("nvme", 8, 4096, 10);
    let other = registry.register("ram", 9, 512, 4);
    assert_eq!(first.0, "nvme0");
    assert_eq!(second.0, "nvme1");
    assert_eq!(other.0, "ram0");
    assert_eq!(registry.count(), 3);
    assert_eq!(first.to_string(), "/dev/nvme0");
    let d = registry.get(&second).expect("registered");
    assert_eq!(*d.device(), 8);
    assert_eq!(d.block_size(), 4096);
    assert_eq!(d.block_count(), 10);
    assert_eq!(d.capacity(), 40960);
    assert!(registry.get(&kernel::filesystem::block::DeviceId::new("nvme2".to_string())).is_none());
}

#[test]
fn registry_replaces_same_id() {
    let mut registry: BlockDeviceRegistry<u32> = BlockDeviceRegistry::new();
    let a = registry.register("a1", 1, 512, 1);
    assert_eq!(a.0, "a10");
    let mut last = a.clone();
    for _ in 0..11 {
        last = registry.register("a", 2, 512, 1);
    }
    // The eleventh device of type "a" gets the id "a10" too, and replaces the first.
    assert_eq!(last.0, "a10");
    assert_eq!(registry.count(), 11);
    assert_eq!(*registry.get(&a).expect("registered").device(), 2);
    let b = registry.register("a1", 3, 512, 1);
    assert_eq!(b.0, "a11");
    let c = registry.register("a", 4, 512, 1);
    assert_eq!(c.0, "a11");
    assert_eq!(registry.count(), 12);
    assert_eq!(*registry.get(&b).expect("registered").device(), 4);
}
