//! VirtIO transport interface: device status handshake, feature
//! negotiation, queue registration, reset and consistent config reads.

use vstd::prelude::*;

use super::{Error, PAGE_SIZE};

verus! {

/// The device status register.
#[derive(Debug, Clone, Copy, PartialEq, Eq, Structural)]
pub struct DeviceStatus {
    pub bits: u32,
}

/// ACKNOWLEDGE: the guest has noticed the device.
pub const STATUS_ACKNOWLEDGE: u32 = 1;
/// DRIVER: the guest knows how to drive the device.
pub const STATUS_DRIVER: u32 = 2;
/// DRIVER_OK: the driver is set up and ready to drive the device.
pub const STATUS_DRIVER_OK: u32 = 4;
/// FEATURES_OK: the driver has acknowledged the features it understands.
pub const STATUS_FEATURES_OK: u32 = 8;
/// DEVICE_NEEDS_RESET: the device experienced an unrecoverable error.
pub const STATUS_DEVICE_NEEDS_RESET: u32 = 64;
/// FAILED: the guest gave up on the device.
pub const STATUS_FAILED: u32 = 128;

impl DeviceStatus {
    /// The empty status (device reset).
    pub fn empty() -> (s: Self)
        ensures
            s.bits == 0,
    {
        DeviceStatus { bits: 0 }
    }

    /// A status with the given bits.
    pub fn from_bits(bits: u32) -> (s: Self)
        ensures
            s.bits == bits,
    {
        DeviceStatus { bits }
    }

    /// Whether no bit is set.
    pub fn is_empty(&self) -> (r: bool)
        ensures
            r == (self.bits == 0),
    {
        self.bits == 0
    }

    /// Whether every bit of `other` is set.
    pub fn contains(&self, other: DeviceStatus) -> (r: bool)
        ensures
            r == (self.bits & other.bits == other.bits),
    {
        self.bits & other.bits == other.bits
    }
}

impl Default for DeviceStatus {
    /// The empty status.
    fn default() -> (s: Self)
        ensures
            s.bits == 0,
    {
        DeviceStatus::empty()
    }
}

/// A queue registration as the driver wrote it: size and the physical
/// addresses of the descriptor table, driver area and device area.
#[derive(Debug, Clone, Copy, PartialEq, Eq, Structural)]
pub struct QueueRegistration {
    pub size: u32,
    pub descriptors: usize,
    pub driver_area: usize,
    pub device_area: usize,
}

/// Every queue registration is the same in both states.
pub open spec fn registrations_kept<T: Transport>(before: T, after: T) -> bool {
    forall|q: u16| #[trigger] after.queue_registration(q) == before.queue_registration(q)
}

/// A VirtIO transport (MMIO or PCI) as seen by a driver.
pub trait Transport: Sized {
    /// The feature bits the device offers (fixed for a device).
    spec fn device_features(&self) -> u64;

    /// The feature bits the driver last wrote.
    spec fn driver_features_written(&self) -> u64;

    /// The value the driver last wrote to the device status register. (What
    /// the device reports back is the device's own and may differ: a reset
    /// may be confirmed late.)
    spec fn status_written(&self) -> DeviceStatus;

    /// The last `queue_used` query: the queue asked about and the answer.
    spec fn queue_used_answer(&self) -> Option<(u16, bool)>;

    /// The last `max_queue_size` query: the queue asked about and the answer.
    spec fn max_queue_size_answer(&self) -> Option<(u16, u32)>;

    /// How many interrupt acknowledgements the driver requested.
    spec fn ack_requests(&self) -> u64;

    /// The registration the driver last wrote for `queue`, if it was not
    /// cleared since.
    spec fn queue_registration(&self, queue: u16) -> Option<QueueRegistration>;

    /// Read the device feature bits.
    fn read_device_features(&mut self) -> (r: u64)
        ensures
            r == old(self).device_features(),
            final(self).status_written() == old(self).status_written(),
            final(self).driver_features_written() == old(self).driver_features_written(),
            final(self).device_features() == old(self).device_features(),
            final(self).queue_used_answer() == old(self).queue_used_answer(),
            final(self).max_queue_size_answer() == old(self).max_queue_size_answer(),
            final(self).ack_requests() == old(self).ack_requests(),
            forall|q: u16| #[trigger] final(self).queue_registration(q) == old(self).queue_registration(q),
    ;

    /// Write the negotiated driver feature bits.
    fn write_driver_features(&mut self, driver_features: u64)
        ensures
            final(self).driver_features_written() == driver_features,
            final(self).status_written() == old(self).status_written(),
            final(self).device_features() == old(self).device_features(),
            final(self).queue_used_answer() == old(self).queue_used_answer(),
            final(self).max_queue_size_answer() == old(self).max_queue_size_answer(),
            final(self).ack_requests() == old(self).ack_requests(),
            forall|q: u16| #[trigger] final(self).queue_registration(q) == old(self).queue_registration(q),
    ;

    /// Maximum size of the given queue; the answer is recorded.
    fn max_queue_size(&mut self, queue: u16) -> (r: u32)
        ensures
            final(self).max_queue_size_answer() == Some((queue, r)),
            final(self).status_written() == old(self).status_written(),
            final(self).driver_features_written() == old(self).driver_features_written(),
            final(self).device_features() == old(self).device_features(),
            final(self).queue_used_answer() == old(self).queue_used_answer(),
            final(self).ack_requests() == old(self).ack_requests(),
            forall|q: u16| #[trigger] final(self).queue_registration(q) == old(self).queue_registration(q),
    ;

    /// Notify the device that the given queue has new buffers.
    fn notify(&mut self, queue: u16)
        ensures
            final(self).status_written() == old(self).status_written(),
            final(self).driver_features_written() == old(self).driver_features_written(),
            final(self).device_features() == old(self).device_features(),
            final(self).queue_used_answer() == old(self).queue_used_answer(),
            final(self).max_queue_size_answer() == old(self).max_queue_size_answer(),
            final(self).ack_requests() == old(self).ack_requests(),
            forall|q: u16| #[trigger] final(self).queue_registration(q) == old(self).queue_registration(q),
    ;

    /// Read the device status register.
    fn get_status(&self) -> DeviceStatus;

    /// Write the device status register; writing the empty status resets
    /// the device (a device may defer confirming the reset).
    fn set_status(&mut self, status: DeviceStatus)
        ensures
            final(self).status_written() == status,
            final(self).driver_features_written() == old(self).driver_features_written(),
            final(self).device_features() == old(self).device_features(),
            final(self).queue_used_answer() == old(self).queue_used_answer(),
            final(self).max_queue_size_answer() == old(self).max_queue_size_answer(),
            final(self).ack_requests() == old(self).ack_requests(),
            forall|q: u16| #[trigger] final(self).queue_registration(q) == old(self).queue_registration(q),
    ;

    /// Set the guest page size (legacy devices).
    fn set_guest_page_size(&mut self, guest_page_size: u32)
        ensures
            final(self).status_written() == old(self).status_written(),
            final(self).driver_features_written() == old(self).driver_features_written(),
            final(self).device_features() == old(self).device_features(),
            final(self).queue_used_answer() == old(self).queue_used_answer(),
            final(self).max_queue_size_answer() == old(self).max_queue_size_answer(),
            final(self).ack_requests() == old(self).ack_requests(),
            forall|q: u16| #[trigger] final(self).queue_registration(q) == old(self).queue_registration(q),
    ;

    /// Whether the queues must use the legacy single-region layout.
    fn requires_legacy_layout(&self) -> bool;

    /// Register the physical addresses of a queue with the device.
    fn queue_set(
        &mut self,
        queue: u16,
        size: u32,
        descriptors: usize,
        driver_area: usize,
        device_area: usize,
    )
        ensures
            final(self).status_written() == old(self).status_written(),
            final(self).driver_features_written() == old(self).driver_features_written(),
            final(self).device_features() == old(self).device_features(),
            final(self).queue_used_answer() == old(self).queue_used_answer(),
            final(self).max_queue_size_answer() == old(self).max_queue_size_answer(),
            final(self).ack_requests() == old(self).ack_requests(),
            final(self).queue_registration(queue) == Some(
                QueueRegistration { size, descriptors, driver_area, device_area },
            ),
            forall|q: u16|
                q != queue ==> #[trigger] final(self).queue_registration(q) == old(
                    self,
                ).queue_registration(q),
    ;

    /// Clear a queue's registration so the device no longer accesses it.
    fn queue_unset(&mut self, queue: u16)
        ensures
            final(self).status_written() == old(self).status_written(),
            final(self).driver_features_written() == old(self).driver_features_written(),
            final(self).device_features() == old(self).device_features(),
            final(self).queue_used_answer() == old(self).queue_used_answer(),
            final(self).max_queue_size_answer() == old(self).max_queue_size_answer(),
            final(self).ack_requests() == old(self).ack_requests(),
            final(self).queue_registration(queue) is None,
            forall|q: u16|
                q != queue ==> #[trigger] final(self).queue_registration(q) == old(
                    self,
                ).queue_registration(q),
    ;

    /// Whether the queue is already registered with the device; the answer
    /// is recorded.
    fn queue_used(&mut self, queue: u16) -> (r: bool)
        ensures
            final(self).queue_used_answer() == Some((queue, r)),
            final(self).status_written() == old(self).status_written(),
            final(self).driver_features_written() == old(self).driver_features_written(),
            final(self).device_features() == old(self).device_features(),
            final(self).max_queue_size_answer() == old(self).max_queue_size_answer(),
            final(self).ack_requests() == old(self).ack_requests(),
            forall|q: u16| #[trigger] final(self).queue_registration(q) == old(self).queue_registration(q),
    ;

    /// Acknowledge a pending interrupt; returns whether one was pending. The
    /// request is counted.
    fn ack_interrupt(&mut self) -> (r: bool)
        ensures
            final(self).ack_requests() == vstd::wrapping::u64_specs::wrapping_add(old(self).ack_requests(), 1),
            final(self).status_written() == old(self).status_written(),
            final(self).driver_features_written() == old(self).driver_features_written(),
            final(self).device_features() == old(self).device_features(),
            final(self).queue_used_answer() == old(self).queue_used_answer(),
            final(self).max_queue_size_answer() == old(self).max_queue_size_answer(),
            forall|q: u16| #[trigger] final(self).queue_registration(q) == old(self).queue_registration(q),
    ;

    /// Whether the device has a config generation counter (a property of
    /// the device, not of the moment it is read).
    spec fn has_config_generation(&self) -> bool;

    /// The device's config generation, if it has one.
    fn config_generation(&self) -> (r: Option<u8>)
        ensures
            r is Some <==> self.has_config_generation(),
    ;

    /// The MAC address in the network device's config space.
    fn config_mac(&self) -> [u8; 6];

    /// The `status` field of the network device's config space.
    fn config_status(&self) -> u16;

    /// Start the initialization handshake: reset, acknowledge, negotiate the
    /// features both sides support, and report FEATURES_OK. Returns the
    /// negotiated feature bits.
    fn begin_init(&mut self, supported_features: u64) -> (negotiated: u64)
        ensures
            negotiated == old(self).device_features() & supported_features,
            negotiated & !supported_features == 0,
            final(self).driver_features_written() == negotiated,
            final(self).status_written().bits == STATUS_ACKNOWLEDGE | STATUS_DRIVER
                | STATUS_FEATURES_OK,
            final(self).device_features() == old(self).device_features(),
            final(self).queue_used_answer() == old(self).queue_used_answer(),
            final(self).max_queue_size_answer() == old(self).max_queue_size_answer(),
            final(self).ack_requests() == old(self).ack_requests(),
            forall|q: u16| #[trigger] final(self).queue_registration(q) == old(self).queue_registration(q),
    {
        self.set_status(DeviceStatus::empty());
        self.set_status(DeviceStatus::from_bits(STATUS_ACKNOWLEDGE | STATUS_DRIVER));
        let device_features = self.read_device_features();
        let negotiated = device_features & supported_features;
        assert(negotiated & !supported_features == 0) by (bit_vector)
            requires
                negotiated == device_features & supported_features,
        ;
        self.write_driver_features(negotiated);
        self.set_status(
            DeviceStatus::from_bits(STATUS_ACKNOWLEDGE | STATUS_DRIVER | STATUS_FEATURES_OK),
        );
        self.set_guest_page_size(PAGE_SIZE as u32);
        negotiated
    }

    /// Finish initialization: publish DRIVER_OK.
    fn finish_init(&mut self)
        ensures
            final(self).status_written().bits == STATUS_ACKNOWLEDGE | STATUS_DRIVER
                | STATUS_FEATURES_OK | STATUS_DRIVER_OK,
            final(self).driver_features_written() == old(self).driver_features_written(),
            final(self).device_features() == old(self).device_features(),
            final(self).queue_used_answer() == old(self).queue_used_answer(),
            final(self).max_queue_size_answer() == old(self).max_queue_size_answer(),
            final(self).ack_requests() == old(self).ack_requests(),
            forall|q: u16| #[trigger] final(self).queue_registration(q) == old(self).queue_registration(q),
    {
        self.set_status(
            DeviceStatus::from_bits(
                STATUS_ACKNOWLEDGE | STATUS_DRIVER | STATUS_FEATURES_OK | STATUS_DRIVER_OK,
            ),
        );
    }

    /// Start a full device reset: one write of the empty status.
    fn begin_reset(&mut self)
        ensures
            final(self).status_written().bits == 0,
            final(self).driver_features_written() == old(self).driver_features_written(),
            final(self).device_features() == old(self).device_features(),
            final(self).queue_used_answer() == old(self).queue_used_answer(),
            final(self).max_queue_size_answer() == old(self).max_queue_size_answer(),
            final(self).ack_requests() == old(self).ack_requests(),
            forall|q: u16| #[trigger] final(self).queue_registration(q) == old(self).queue_registration(q),
    {
        self.set_status(DeviceStatus::empty());
    }

    /// Whether the device confirmed the reset: its status reads back empty.
    fn reset_confirmed(&self) -> bool {
        self.get_status().is_empty()
    }

    /// Run `read` between two config-generation reads; a change means a
    /// device config update raced the read, reported as [`Error::Retry`].
    fn read_config_snapshot<R, F: FnOnce(&Self) -> Result<R, Error>>(&self, read: F) -> (r: Result<
        R,
        Error,
    >)
        requires
            read.requires((self,)),
        ensures
            r is Ok ==> read.ensures((self,), r),
            r is Err ==> r == Err::<R, Error>(Error::Retry) || read.ensures((self,), r),
    {
        let before = self.config_generation();
        let value = read(self);
        let after = self.config_generation();
        config_snapshot_result(before, after, value)
    }
}

/// The outcome of a generation-guarded config read: the value read when the
/// generation did not change across it, [`Error::Retry`] otherwise.
pub open spec fn config_snapshot_spec<R>(
    before: Option<u8>,
    after: Option<u8>,
    value: Result<R, Error>,
) -> Result<R, Error> {
    if before != after {
        Err(Error::Retry)
    } else {
        value
    }
}

/// Decide a generation-guarded config read from the generations observed
/// before and after it and the value it produced.
pub fn config_snapshot_result<R>(before: Option<u8>, after: Option<u8>, value: Result<R, Error>) -> (r:
    Result<R, Error>)
    ensures
        r == config_snapshot_spec(before, after, value),
{
    if before != after {
        return Err(Error::Retry);
    }
    value
}

} // verus!
