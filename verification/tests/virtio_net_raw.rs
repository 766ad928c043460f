use std::collections::BTreeSet;
use std::sync::Mutex;

use starry_drivers::virtio::Error;
use starry_drivers::virtio::hal::Hal;
use starry_drivers::virtio::net::receive_lengths;
use starry_drivers::virtio::queue::queue_admission;
use starry_drivers::virtio::net::{NET_HDR_SIZE, VirtIONetRaw};
use starry_drivers::virtio::transport::{
    DeviceStatus, QueueRegistration, STATUS_DRIVER_OK, Transport,
};

/// DMA accounting shared by the counting HAL: how many allocations and
/// deallocations happened and which addresses are alive.
struct DmaLedger {
    allocs: usize,
    deallocs: usize,
    next_addr: usize,
    live: BTreeSet<usize>,
}

static DMA: Mutex<DmaLedger> = Mutex::new(DmaLedger {
    allocs: 0,
    deallocs: 0,
    next_addr: 0x1000_0000,
    live: BTreeSet::new(),
});

fn dma_alive_count() -> usize {
    let d = DMA.lock().unwrap();
    d.allocs - d.deallocs
}

fn dma_deallocs() -> usize {
    DMA.lock().unwrap().deallocs
}

fn dma_is_live(addr: usize) -> bool {
    DMA.lock().unwrap().live.contains(&addr)
}

fn reset_dma_accounting() {
    let mut d = DMA.lock().unwrap();
    d.allocs = 0;
    d.deallocs = 0;
    d.live.clear();
}

/// A Hal that counts DMA allocations and deallocations so tests can prove
/// queue backing is conserved across a reinit.
#[derive(Debug)]
struct CountingHal;

impl Hal for CountingHal {
    fn dma_alloc(pages: usize) -> usize {
        let mut d = DMA.lock().unwrap();
        d.allocs += 1;
        let paddr = d.next_addr;
        d.next_addr = paddr + pages * 4096;
        d.live.insert(paddr);
        paddr
    }

    fn dma_dealloc(paddr: usize, _pages: usize) -> i32 {
        let mut d = DMA.lock().unwrap();
        d.deallocs += 1;
        d.live.remove(&paddr);
        0
    }
}

/// A transport that models a real MMIO device: writing empty status resets
/// the device, which clears its queue registers; `defer_reset` holds the
/// reset pending.
#[derive(Debug)]
struct RecoveryTransport {
    mac: [u8; 6],
    config_status: u16,
    status: DeviceStatus,
    written: DeviceStatus,
    driver_features: u64,
    queue_addr: [Option<(usize, usize, usize)>; 2],
    gen: u8,
    defer_reset: bool,
    fail_recv_reinit: bool,
    queue_used_answer: Option<(u16, bool)>,
    max_queue_size_answer: Option<(u16, u32)>,
    ack_requests: u64,
    registrations: [Option<QueueRegistration>; 2],
}

impl Transport for RecoveryTransport {
    fn device_features(&self) -> u64 {
        0
    }
    fn driver_features_written(&self) -> u64 {
        self.driver_features
    }
    fn read_device_features(&mut self) -> u64 {
        0
    }
    fn write_driver_features(&mut self, driver_features: u64) {
        self.driver_features = driver_features;
    }
    fn queue_used_answer(&self) -> Option<(u16, bool)> {
        self.queue_used_answer
    }
    fn max_queue_size_answer(&self) -> Option<(u16, u32)> {
        self.max_queue_size_answer
    }
    fn ack_requests(&self) -> u64 {
        self.ack_requests
    }
    fn queue_registration(&self, queue: u16) -> Option<QueueRegistration> {
        self.registrations.get(queue as usize).copied().flatten()
    }
    fn max_queue_size(&mut self, queue: u16) -> u32 {
        self.max_queue_size_answer = Some((queue, 4));
        4
    }
    fn notify(&mut self, _queue: u16) {}
    fn get_status(&self) -> DeviceStatus {
        self.status
    }
    fn status_written(&self) -> DeviceStatus {
        self.written
    }
    fn set_status(&mut self, status: DeviceStatus) {
        self.written = status;
        if status.is_empty() {
            if self.defer_reset {
                return;
            }
            self.status = status;
            self.queue_addr = [None, None];
            return;
        }
        self.status = status;
    }
    fn set_guest_page_size(&mut self, _guest_page_size: u32) {}
    fn requires_legacy_layout(&self) -> bool {
        false
    }
    fn queue_set(
        &mut self,
        queue: u16,
        size: u32,
        descriptors: usize,
        driver_area: usize,
        device_area: usize,
    ) {
        self.registrations[queue as usize] =
            Some(QueueRegistration { size, descriptors, driver_area, device_area });
        self.queue_addr[queue as usize] = Some((descriptors, driver_area, device_area));
    }
    fn queue_unset(&mut self, queue: u16) {
        self.registrations[queue as usize] = None;
        self.queue_addr[queue as usize] = None;
    }
    fn queue_used(&mut self, queue: u16) -> bool {
        let used =
            self.queue_addr[queue as usize].is_some() || (self.fail_recv_reinit && queue == 0);
        self.queue_used_answer = Some((queue, used));
        used
    }
    fn ack_interrupt(&mut self) -> bool {
        self.ack_requests = self.ack_requests.wrapping_add(1);
        false
    }
    fn has_config_generation(&self) -> bool {
        true
    }
    fn config_generation(&self) -> Option<u8> {
        Some(self.gen)
    }
    fn config_mac(&self) -> [u8; 6] {
        self.mac
    }
    fn config_status(&self) -> u16 {
        self.config_status
    }
}

fn recovery_transport(config_status: u16) -> RecoveryTransport {
    RecoveryTransport {
        mac: [0x52, 0x54, 0x00, 0x12, 0x34, 0x56],
        config_status,
        status: DeviceStatus::empty(),
        written: DeviceStatus::empty(),
        driver_features: 0,
        queue_addr: [None, None],
        gen: 0,
        defer_reset: false,
        fail_recv_reinit: false,
        queue_used_answer: None,
        max_queue_size_answer: None,
        ack_requests: 0,
        registrations: [None, None],
    }
}

const LINK_UP: u16 = 1;

#[test]
fn reinit_rebuilds_queues_without_leaking_dma_backing() {
    reset_dma_accounting();

    let mut dev: VirtIONetRaw<CountingHal, RecoveryTransport, 4> =
        VirtIONetRaw::new(recovery_transport(0)).unwrap();
    let alive_after_new = dma_alive_count();
    assert!(alive_after_new > 0, "queues allocate DMA backing");

    // Driver initiates reset; device confirms it stopped (clearing queues).
    dev.begin_reset();
    assert!(dev.reset_confirmed(), "reset acknowledged");

    dev.reinit_prepare().unwrap();
    dev.commit_driver_ok().unwrap();

    let alive_after_reinit = dma_alive_count();
    assert_eq!(
        alive_after_reinit, alive_after_new,
        "no DMA backing leaked or duplicated across reinit"
    );
    assert!(dma_deallocs() > 0, "old queues were freed");
    assert!(dev.can_send(), "rebuilt send queue is usable");
}

#[test]
fn deferred_unconfirmed_reset_forbids_reinit() {
    let mut transport = recovery_transport(0);
    transport.defer_reset = true;
    reset_dma_accounting();
    let mut dev: VirtIONetRaw<CountingHal, RecoveryTransport, 4> =
        VirtIONetRaw::new(transport).unwrap();
    let alive_after_new = dma_alive_count();
    dev.begin_reset();
    assert!(
        !dev.reset_confirmed(),
        "a pending reset must not allow freeing old backing"
    );
    assert!(
        dev.reinit_prepare().is_err(),
        "reinit must refuse while the reset is unconfirmed"
    );
    assert_eq!(
        dma_alive_count(),
        alive_after_new,
        "a refused reinit must not allocate or free any DMA backing"
    );
}

#[test]
fn link_status_reads_consistent_net_config_status() {
    let mut link_up: VirtIONetRaw<CountingHal, RecoveryTransport, 4> =
        VirtIONetRaw::new(recovery_transport(LINK_UP)).unwrap();
    assert!(link_up.read_link_status().unwrap(), "link up is reported");

    let mut link_down: VirtIONetRaw<CountingHal, RecoveryTransport, 4> =
        VirtIONetRaw::new(recovery_transport(0)).unwrap();
    assert!(
        !link_down.read_link_status().unwrap(),
        "link down is not reported"
    );
}

#[test]
fn reinit_prepare_does_not_publish_driver_ok_until_commit() {
    let mut dev: VirtIONetRaw<CountingHal, RecoveryTransport, 4> =
        VirtIONetRaw::new(recovery_transport(0)).unwrap();
    dev.begin_reset();
    assert!(dev.reset_confirmed(), "reset acknowledged");

    dev.reinit_prepare().unwrap();
    let after_prepare = dev.transport().get_status();
    assert!(
        !after_prepare.contains(DeviceStatus::from_bits(STATUS_DRIVER_OK)),
        "prepare must not arm the device (status {:?})",
        after_prepare
    );

    dev.commit_driver_ok().unwrap();
    let after_commit = dev.transport().get_status();
    assert!(
        after_commit.contains(DeviceStatus::from_bits(STATUS_DRIVER_OK)),
        "commit publishes DRIVER_OK (status {:?})",
        after_commit
    );
}

#[test]
fn partial_reinit_retains_send_backing_and_does_not_driver_ok() {
    reset_dma_accounting();
    let transport = recovery_transport(0);
    let mut dev: VirtIONetRaw<CountingHal, RecoveryTransport, 4> =
        VirtIONetRaw::new(transport).unwrap();
    // Enable the receive-rebuild failure only after a successful initial
    // bring-up, so it exercises the recovery prepare path, not `new`.
    dev.transport_mut().fail_recv_reinit = true;

    dev.begin_reset();
    assert!(dev.reset_confirmed(), "reset acknowledged");

    // The receive rebuild fails, but the successfully-built send queue must
    // be retained so its DMA survives.
    assert!(dev.reinit_prepare().is_err());
    assert!(
        dev.has_pending_send(),
        "partial send queue must be retained while the transport references it"
    );
    assert!(
        !dev.transport()
            .get_status()
            .contains(DeviceStatus::from_bits(STATUS_DRIVER_OK)),
        "no DRIVER_OK after a failed partial rebuild"
    );
    // Address-aware: the send-queue descriptor address the transport
    // registered during the partial prepare must still be live.
    let registered_send_addr = dev.transport().queue_addr[1]
        .map(|(descriptors, ..)| descriptors)
        .expect("send queue registered during the partial prepare");
    assert!(
        dma_is_live(registered_send_addr),
        "the transport-registered send address must still be live (address {:x})",
        registered_send_addr
    );

    // Tearing the raw device down frees every allocation, including the
    // retained partial queue; nothing leaks.
    dev.release_device();
    assert_eq!(
        dma_alive_count(),
        0,
        "no DMA backing leaked after the raw is dropped"
    );
}

#[test]
fn fill_buffer_header_zeroes_header_and_rejects_short_buffers() {
    let dev: VirtIONetRaw<CountingHal, RecoveryTransport, 4> =
        VirtIONetRaw::new(recovery_transport(0)).unwrap();
    let mut buf = [0xffu8; 16];
    assert_eq!(dev.fill_buffer_header(&mut buf), Ok(NET_HDR_SIZE));
    assert!(buf[..NET_HDR_SIZE].iter().all(|&b| b == 0));
    assert!(buf[NET_HDR_SIZE..].iter().all(|&b| b == 0xff));
    let mut short = [0xffu8; 4];
    assert!(dev.fill_buffer_header(&mut short).is_err());
    assert_eq!(short, [0xff; 4]);
    assert_eq!(dev.mac_address(), [0x52, 0x54, 0x00, 0x12, 0x34, 0x56]);
    assert_eq!(dev.send_available_desc(), 4);
}

#[test]
fn queue_already_registered_fails_creation() {
    let mut t = recovery_transport(0);
    t.fail_recv_reinit = true;
    reset_dma_accounting();
    let r: Result<VirtIONetRaw<CountingHal, RecoveryTransport, 4>, _> = VirtIONetRaw::new(t);
    assert!(r.is_err());
    assert_eq!(dma_alive_count(), 0, "a failed bring-up releases what it built");
}

#[test]
fn receive_lengths_split_header_and_packet() {
    assert_eq!(receive_lengths(10), Ok((NET_HDR_SIZE, 0)));
    assert_eq!(receive_lengths(74), Ok((NET_HDR_SIZE, 64)));
    assert_eq!(receive_lengths(9), Err(Error::IoError));
    assert_eq!(receive_lengths(0), Err(Error::IoError));
}

#[test]
fn successful_reinit_clears_retained_partial_queue() {
    reset_dma_accounting();
    let mut dev: VirtIONetRaw<CountingHal, RecoveryTransport, 4> =
        VirtIONetRaw::new(recovery_transport(0)).unwrap();
    let alive_after_new = dma_alive_count();
    dev.transport_mut().fail_recv_reinit = true;
    dev.begin_reset();
    assert!(dev.reinit_prepare().is_err());
    assert!(dev.has_pending_send());

    dev.transport_mut().fail_recv_reinit = false;
    dev.begin_reset();
    assert!(dev.reset_confirmed());
    dev.reinit_prepare().unwrap();
    assert!(!dev.has_pending_send());
    assert_eq!(dma_alive_count(), alive_after_new);
    dev.commit_driver_ok().unwrap();
    dev.release_device();
    assert_eq!(dma_alive_count(), 0);
}

#[test]
fn reset_and_commit_write_the_expected_status() {
    let mut transport = recovery_transport(0);
    transport.defer_reset = true;
    let mut dev: VirtIONetRaw<CountingHal, RecoveryTransport, 4> =
        VirtIONetRaw::new(transport).unwrap();
    assert_eq!(dev.transport().status_written().bits, 15);
    dev.begin_reset();
    // The empty status was written although the device has not confirmed it.
    assert_eq!(dev.transport().status_written().bits, 0);
    assert!(!dev.reset_confirmed());
    dev.commit_driver_ok().unwrap();
    assert_eq!(dev.transport().status_written().bits, 15);
}

#[test]
fn queues_are_registered_and_acks_are_counted() {
    let mut dev: VirtIONetRaw<CountingHal, RecoveryTransport, 4> =
        VirtIONetRaw::new(recovery_transport(0)).unwrap();
    let t = dev.transport();
    let send = t.queue_registration(1).expect("transmit queue registered");
    let recv = t.queue_registration(0).expect("receive queue registered");
    assert_eq!(send.size, 4);
    assert_eq!(recv.size, 4);
    // Descriptors first, then the available ring right after them.
    assert_eq!(send.driver_area, send.descriptors + 16 * 4);
    assert!(dma_is_live(send.descriptors) && dma_is_live(recv.descriptors));
    assert_eq!(t.queue_used_answer(), Some((0, false)));
    assert_eq!(t.max_queue_size_answer(), Some((0, 4)));
    assert!(!dev.ack_interrupt());
    assert!(!dev.ack_interrupt());
    assert_eq!(dev.transport().ack_requests(), 2);
}

#[test]
fn queue_admission_decides_on_the_transport_answers() {
    assert_eq!(queue_admission(4, true, 16), Err(Error::AlreadyUsed));
    assert_eq!(queue_admission(3, false, 16), Err(Error::InvalidParam));
    assert_eq!(queue_admission(0x2_0000, false, u32::MAX), Err(Error::InvalidParam));
    assert_eq!(queue_admission(32, false, 16), Err(Error::InvalidParam));
    assert_eq!(queue_admission(16, false, 16), Ok(()));
}
