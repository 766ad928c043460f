use std::sync::{Arc, Mutex};

use starry_drivers::virtio::Error;
use starry_drivers::virtio::transport::{
    DeviceStatus, QueueRegistration, STATUS_ACKNOWLEDGE, STATUS_DRIVER_OK, Transport,
    config_snapshot_result,
};

#[derive(Debug, Default)]
struct QueueStatus {
    size: u32,
    descriptors: usize,
    driver_area: usize,
    device_area: usize,
    notified: bool,
}

#[derive(Debug, Default)]
struct State {
    status: DeviceStatus,
    /// The last status the driver wrote.
    written: DeviceStatus,
    driver_features: u64,
    guest_page_size: u32,
    interrupt_pending: bool,
    /// A reset write is held pending and does not clear the observed status.
    defer_reset: bool,
    config_generation: u8,
    queues: Vec<QueueStatus>,
    /// What the driver side records.
    queue_used_answer: Option<(u16, bool)>,
    max_queue_size_answer: Option<(u16, u32)>,
    ack_requests: u64,
    registrations: Vec<Option<QueueRegistration>>,
}

/// A fake transport for unit tests.
#[derive(Debug)]
struct FakeTransport {
    max_queue_size: u32,
    device_features: u64,
    state: Arc<Mutex<State>>,
}

impl Transport for FakeTransport {
    fn device_features(&self) -> u64 {
        self.device_features
    }
    fn driver_features_written(&self) -> u64 {
        self.state.lock().unwrap().driver_features
    }
    fn read_device_features(&mut self) -> u64 {
        self.device_features
    }
    fn write_driver_features(&mut self, driver_features: u64) {
        self.state.lock().unwrap().driver_features = driver_features;
    }
    fn queue_used_answer(&self) -> Option<(u16, bool)> {
        self.state.lock().unwrap().queue_used_answer
    }
    fn max_queue_size_answer(&self) -> Option<(u16, u32)> {
        self.state.lock().unwrap().max_queue_size_answer
    }
    fn ack_requests(&self) -> u64 {
        self.state.lock().unwrap().ack_requests
    }
    fn queue_registration(&self, queue: u16) -> Option<QueueRegistration> {
        self.state.lock().unwrap().registrations.get(queue as usize).copied().flatten()
    }
    fn max_queue_size(&mut self, queue: u16) -> u32 {
        self.state.lock().unwrap().max_queue_size_answer = Some((queue, self.max_queue_size));
        self.max_queue_size
    }
    fn notify(&mut self, queue: u16) {
        self.state.lock().unwrap().queues[queue as usize].notified = true;
    }
    fn get_status(&self) -> DeviceStatus {
        self.state.lock().unwrap().status
    }
    fn status_written(&self) -> DeviceStatus {
        self.state.lock().unwrap().written
    }
    fn set_status(&mut self, status: DeviceStatus) {
        let mut state = self.state.lock().unwrap();
        state.written = status;
        if status.is_empty() && state.defer_reset {
            return;
        }
        state.status = status;
    }
    fn set_guest_page_size(&mut self, guest_page_size: u32) {
        self.state.lock().unwrap().guest_page_size = guest_page_size;
    }
    fn requires_legacy_layout(&self) -> bool {
        false
    }
    fn queue_set(
        &mut self,
        queue: u16,
        size: u32,
        descriptors: usize,
        driver_area: usize,
        device_area: usize,
    ) {
        let mut state = self.state.lock().unwrap();
        state.registrations[queue as usize] =
            Some(QueueRegistration { size, descriptors, driver_area, device_area });
        state.queues[queue as usize].size = size;
        state.queues[queue as usize].descriptors = descriptors;
        state.queues[queue as usize].driver_area = driver_area;
        state.queues[queue as usize].device_area = device_area;
    }
    fn queue_unset(&mut self, queue: u16) {
        let mut state = self.state.lock().unwrap();
        state.registrations[queue as usize] = None;
        state.queues[queue as usize].size = 0;
        state.queues[queue as usize].descriptors = 0;
        state.queues[queue as usize].driver_area = 0;
        state.queues[queue as usize].device_area = 0;
    }
    fn queue_used(&mut self, queue: u16) -> bool {
        let mut state = self.state.lock().unwrap();
        let used = state.queues[queue as usize].descriptors != 0;
        state.queue_used_answer = Some((queue, used));
        used
    }
    fn ack_interrupt(&mut self) -> bool {
        let mut state = self.state.lock().unwrap();
        state.ack_requests = state.ack_requests.wrapping_add(1);
        let pending = state.interrupt_pending;
        if pending {
            state.interrupt_pending = false;
        }
        pending
    }
    fn has_config_generation(&self) -> bool {
        true
    }
    fn config_generation(&self) -> Option<u8> {
        Some(self.state.lock().unwrap().config_generation)
    }
    fn config_mac(&self) -> [u8; 6] {
        [0; 6]
    }
    fn config_status(&self) -> u16 {
        0
    }
}

fn fake_transport() -> FakeTransport {
    let mut state = State::default();
    state.queues = (0..2).map(|_| QueueStatus::default()).collect();
    state.registrations = vec![None, None];
    FakeTransport {
        max_queue_size: 4,
        device_features: 0,
        state: Arc::new(Mutex::new(state)),
    }
}

fn busy() -> DeviceStatus {
    DeviceStatus::from_bits(STATUS_ACKNOWLEDGE | STATUS_DRIVER_OK)
}

#[test]
fn begin_reset_and_confirmation_are_separate_steps() {
    let mut t = fake_transport();
    // A busy device exposes a non-empty status.
    t.state.lock().unwrap().status = busy();
    assert!(!t.reset_confirmed(), "busy device is not confirmed reset");

    // `begin_reset` is a bounded one-shot empty-status write.
    t.begin_reset();
    assert!(
        t.state.lock().unwrap().status.is_empty(),
        "reset start clears status"
    );
    assert!(t.reset_confirmed(), "immediate reset reads back empty");

    // A device that defers stopping must not be reported confirmed until it
    // actually reads back empty.
    t.state.lock().unwrap().defer_reset = true;
    t.state.lock().unwrap().status = busy();
    t.begin_reset();
    assert!(
        !t.reset_confirmed(),
        "a pending reset must not be reported confirmed"
    );
    assert!(
        !t.state.lock().unwrap().status.is_empty(),
        "deferred reset keeps a non-empty observed status"
    );

    // Simulate the device finishing the reset.
    t.state.lock().unwrap().defer_reset = false;
    t.state.lock().unwrap().status = DeviceStatus::empty();
    assert!(t.reset_confirmed(), "confirmed reset reads back empty");
}

#[test]
fn config_snapshot_retries_when_generation_changes_mid_read() {
    let t = fake_transport();
    t.state.lock().unwrap().config_generation = 3;

    // `read` simulates a device config update racing the read by bumping the
    // generation between the before/after reads of the snapshot.
    let racing = |_t: &FakeTransport| -> Result<u16, Error> {
        t.state.lock().unwrap().config_generation = 4;
        Ok(7)
    };
    assert_eq!(t.read_config_snapshot(racing), Err(Error::Retry));

    // A stable read (no concurrent update) returns the value once.
    let stable = |_t: &FakeTransport| -> Result<u16, Error> { Ok(9) };
    assert_eq!(t.read_config_snapshot(stable), Ok(9));
}

#[test]
fn begin_init_negotiates_only_supported_features() {
    let mut t = fake_transport();
    t.device_features = 0b1011;
    let negotiated = t.begin_init(0b0110);
    assert_eq!(negotiated, 0b0010);
    assert_eq!(t.state.lock().unwrap().driver_features, 0b0010);
    assert_eq!(t.state.lock().unwrap().guest_page_size, 4096);
    assert!(!t.get_status().contains(DeviceStatus::from_bits(STATUS_DRIVER_OK)));
    t.finish_init();
    assert!(t.get_status().contains(DeviceStatus::from_bits(STATUS_DRIVER_OK)));
}

#[test]
fn config_snapshot_result_passes_errors_through() {
    assert_eq!(
        config_snapshot_result::<u16>(Some(1), Some(1), Err(Error::IoError)),
        Err(Error::IoError)
    );
    assert_eq!(config_snapshot_result(None, None, Ok(5u16)), Ok(5));
    assert_eq!(config_snapshot_result(Some(1), Some(2), Ok(5u16)), Err(Error::Retry));
}
