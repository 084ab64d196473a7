use std::sync::{Arc, Mutex};

use linux_loader::cmdline::Cmdline;
use vm_device::bus::{Error as BusError, MmioAddress};
use vm_device::device_manager::IoManager;
use vm_device::MutDeviceMmio;
use vmm_devices::activation::{check_activation, doorbell_bindings, QUEUE_NOTIFY_OFFSET};
use vmm_devices::cmdline::virtio_mmio_arg_text;
use vmm_devices::env::{append_to_cmdline, register_virtio_mmio};
use vmm_devices::error::Error;
use vmm_devices::mmio::{mmio_range_at, register_on_bus, MmioConfig};

struct Dummy;

impl MutDeviceMmio for Dummy {
    fn mmio_read(&mut self, _base: MmioAddress, _offset: u64, _data: &mut [u8]) {}

    fn mmio_write(&mut self, _base: MmioAddress, _offset: u64, _data: &[u8]) {}
}

fn dummy() -> Arc<Mutex<Dummy>> {
    Arc::new(Mutex::new(Dummy))
}

fn cmdline_text(c: &Cmdline) -> String {
    c.as_cstring().unwrap().into_string().unwrap()
}

#[test]
fn test_env() {
    let mut mmio_mgr = IoManager::new();
    let mut kernel_cmdline = Cmdline::new(4096).unwrap();
    let mmio_cfg = MmioConfig::new(0x1_0000_0000, 0x1000, 5).unwrap();

    register_virtio_mmio(&mut mmio_mgr, &mut kernel_cmdline, mmio_cfg, dummy()).unwrap();

    let (bus_base, bus_size) = mmio_range_at(&mmio_mgr, mmio_cfg.base).unwrap();
    assert_eq!(bus_base, mmio_cfg.base);
    assert_eq!(bus_size, mmio_cfg.size);

    assert_eq!(
        cmdline_text(&kernel_cmdline),
        format!("virtio_mmio.device=4K@0x{:x}:{}", mmio_cfg.base, mmio_cfg.gsi)
    );

    append_to_cmdline(&mut kernel_cmdline, "ending_string").unwrap();
    assert!(cmdline_text(&kernel_cmdline).ends_with("ending_string"));
}

#[test]
fn end_to_end_registration() {
    let mut mmio_mgr = IoManager::new();
    let mut kernel_cmdline = Cmdline::new(4096).unwrap();
    let mmio_cfg = MmioConfig::new(0x1_0000_0000, 0x1000, 5).unwrap();
    register_virtio_mmio(&mut mmio_mgr, &mut kernel_cmdline, mmio_cfg, dummy()).unwrap();
    assert_eq!(mmio_range_at(&mmio_mgr, 0x1_0000_0000), Some((0x1_0000_0000, 0x1000)));
    assert_eq!(mmio_range_at(&mmio_mgr, 0x1_0000_0fff), Some((0x1_0000_0000, 0x1000)));
    assert_eq!(mmio_range_at(&mmio_mgr, 0x1_0000_1000), None);
    assert_eq!(mmio_range_at(&mmio_mgr, 0xffff_ffff), None);
    assert!(cmdline_text(&kernel_cmdline).ends_with("virtio_mmio.device=4K@0x100000000:5"));
    append_to_cmdline(&mut kernel_cmdline, "ending_string").unwrap();
    assert_eq!(
        cmdline_text(&kernel_cmdline),
        "virtio_mmio.device=4K@0x100000000:5 ending_string"
    );
}

#[test]
fn mmio_config_keeps_fields() {
    let cfg = MmioConfig::new(0xd000_0000, 0x200, 7).unwrap();
    assert_eq!((cfg.base, cfg.size, cfg.gsi), (0xd000_0000, 0x200, 7));
}

#[test]
fn mmio_config_rejects_empty_range() {
    let r = MmioConfig::new(0x1000, 0, 5);
    assert!(matches!(r, Err(Error::Bus(BusError::InvalidRange))));
}

#[test]
fn mmio_config_range_may_end_at_last_address() {
    assert!(MmioConfig::new(0, u64::MAX, 1).is_ok());
    assert!(MmioConfig::new(1, u64::MAX, 1).is_ok());
    assert!(matches!(
        MmioConfig::new(2, u64::MAX, 1),
        Err(Error::Bus(BusError::InvalidRange))
    ));
}

#[test]
fn overlapping_registration_is_refused() {
    let mut mmio_mgr = IoManager::new();
    let mut kernel_cmdline = Cmdline::new(4096).unwrap();
    let first = MmioConfig::new(0x1000, 0x1000, 5).unwrap();
    let second = MmioConfig::new(0x1800, 0x1000, 6).unwrap();
    register_virtio_mmio(&mut mmio_mgr, &mut kernel_cmdline, first, dummy()).unwrap();
    let r = register_virtio_mmio(&mut mmio_mgr, &mut kernel_cmdline, second, dummy());
    assert!(matches!(r, Err(Error::Bus(BusError::DeviceOverlap))));
    assert_eq!(cmdline_text(&kernel_cmdline), "virtio_mmio.device=4K@0x1000:5");
    assert_eq!(mmio_range_at(&mmio_mgr, 0x2000), None);
    assert_eq!(mmio_range_at(&mmio_mgr, 0x1800), Some((0x1000, 0x1000)));
}

#[test]
fn adjacent_ranges_both_register() {
    let mut mmio_mgr = IoManager::new();
    register_on_bus(&mut mmio_mgr, 0x1000, 0x1000, dummy()).unwrap();
    register_on_bus(&mut mmio_mgr, 0x2000, 0x1000, dummy()).unwrap();
    assert_eq!(mmio_range_at(&mmio_mgr, 0x1fff), Some((0x1000, 0x1000)));
    assert_eq!(mmio_range_at(&mmio_mgr, 0x2000), Some((0x2000, 0x1000)));
}

#[test]
fn discovery_argument_sizes() {
    let cases: [(u64, u64, u32, &str); 4] = [
        (0x4000_0000, 0xd000_0000, 10, "virtio_mmio.device=1048576K@0xd0000000:10"),
        (0x10_0000, 0x0, 0, "virtio_mmio.device=1024K@0x0:0"),
        (0x1000, 0xabc000, 12, "virtio_mmio.device=4K@0xabc000:12"),
        (0x1001, 0x10, 0, "virtio_mmio.device=4097@0x10:0"),
    ];
    for (size, base, gsi, expected) in cases {
        let mut mmio_mgr = IoManager::new();
        let mut kernel_cmdline = Cmdline::new(4096).unwrap();
        let cfg = MmioConfig::new(base, size, gsi).unwrap();
        register_virtio_mmio(&mut mmio_mgr, &mut kernel_cmdline, cfg, dummy()).unwrap();
        assert_eq!(cmdline_text(&kernel_cmdline), expected);
    }
}

#[test]
fn cmdline_too_small_keeps_bus_registration() {
    let mut mmio_mgr = IoManager::new();
    let mut kernel_cmdline = Cmdline::new(8).unwrap();
    let cfg = MmioConfig::new(0x1000, 0x1000, 5).unwrap();
    let r = register_virtio_mmio(&mut mmio_mgr, &mut kernel_cmdline, cfg, dummy());
    assert!(matches!(r, Err(Error::Cmdline(_))));
    assert_eq!(mmio_range_at(&mmio_mgr, 0x1000), Some((0x1000, 0x1000)));
    assert_eq!(cmdline_text(&kernel_cmdline), "");
}

#[test]
fn insert_appends_with_one_space() {
    let mut kernel_cmdline = Cmdline::new(4096).unwrap();
    append_to_cmdline(&mut kernel_cmdline, "console=ttyS0").unwrap();
    append_to_cmdline(&mut kernel_cmdline, "x").unwrap();
    let text = cmdline_text(&kernel_cmdline);
    assert_eq!(text, "console=ttyS0 x");
    assert!(text.ends_with("x"));
}

#[test]
fn insert_into_empty_cmdline() {
    let mut kernel_cmdline = Cmdline::new(4096).unwrap();
    append_to_cmdline(&mut kernel_cmdline, "x").unwrap();
    assert_eq!(cmdline_text(&kernel_cmdline), "x");
}

#[test]
fn insert_refuses_non_printable() {
    let mut kernel_cmdline = Cmdline::new(4096).unwrap();
    append_to_cmdline(&mut kernel_cmdline, "a").unwrap();
    let r = append_to_cmdline(&mut kernel_cmdline, "b\u{7}c");
    assert!(matches!(r, Err(Error::Cmdline(_))));
    assert_eq!(cmdline_text(&kernel_cmdline), "a");
}

#[test]
fn activation_refused_for_invalid_queues() {
    assert!(matches!(check_activation(false, false, 0x1000), Err(Error::QueuesNotValid)));
    assert!(matches!(check_activation(false, true, 0x1000), Err(Error::QueuesNotValid)));
}

#[test]
fn activation_refused_when_already_activated() {
    assert!(matches!(check_activation(true, true, 0x1000), Err(Error::AlreadyActivated)));
}

#[test]
fn activation_refused_when_notify_address_overflows() {
    assert!(matches!(check_activation(true, false, u64::MAX - 0x4f), Err(Error::Overflow)));
}

#[test]
fn activation_notify_address() {
    assert_eq!(check_activation(true, false, 0x1_0000_0000).unwrap(), 0x1_0000_0050);
    assert_eq!(check_activation(true, false, u64::MAX - 0x50).unwrap(), u64::MAX);
    assert_eq!(QUEUE_NOTIFY_OFFSET, 0x50);
}

#[test]
fn insert_refused_when_cmdline_is_full() {
    let mut kernel_cmdline = Cmdline::new(5).unwrap();
    append_to_cmdline(&mut kernel_cmdline, "abcd").unwrap();
    let r = append_to_cmdline(&mut kernel_cmdline, "x");
    assert!(matches!(r, Err(Error::Cmdline(_))));
    assert_eq!(cmdline_text(&kernel_cmdline), "abcd");
}

#[test]
fn doorbells_pair_queue_index_with_notify_address() {
    let notify = check_activation(true, false, 0x1_0000_0000).unwrap();
    assert_eq!(
        doorbell_bindings(notify, 3),
        vec![(0x1_0000_0050, 0), (0x1_0000_0050, 1), (0x1_0000_0050, 2)]
    );
    assert!(doorbell_bindings(notify, 0).is_empty());
}

#[test]
fn discovery_argument_text() {
    assert_eq!(
        virtio_mmio_arg_text(0x1000, 0x1_0000_0000, 5),
        "virtio_mmio.device=4K@0x100000000:5"
    );
    assert_eq!(
        virtio_mmio_arg_text(0x400, 0xfeed_f00d, 4_294_967_295),
        "virtio_mmio.device=1K@0xfeedf00d:4294967295"
    );
    assert_eq!(virtio_mmio_arg_text(100, 0, 0), "virtio_mmio.device=100@0x0:0");
}

#[test]
fn insert_refuses_control_character_inside_text() {
    let mut kernel_cmdline = Cmdline::new(4096).unwrap();
    let r = append_to_cmdline(&mut kernel_cmdline, "a\u{1}b");
    assert!(matches!(r, Err(Error::Cmdline(_))));
    assert_eq!(cmdline_text(&kernel_cmdline), "");
}
