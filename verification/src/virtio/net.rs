//! Raw VirtIO network device: bring-up, interrupt and notification control,
//! transmit-header framing, and the transactional reset/reinit recovery
//! protocol.
//!
//! Recovery is split into three steps: [`VirtIONetRaw::begin_reset`] writes
//! the empty status; [`VirtIONetRaw::reinit_prepare`] rebuilds both queues
//! only after the device confirmed the reset, without publishing DRIVER_OK;
//! [`VirtIONetRaw::commit_driver_ok`] arms the device once every slot was
//! refilled. A queue whose address was already registered with the transport
//! is never released while the transport may still reference it.

use vstd::prelude::*;

use super::hal::{DmaRegion, Hal};
use super::queue::{
    QueueView, VirtQueue, admission_spec, is_power_of_two, registration_of, size_valid,
};
use super::transport::{
    DeviceStatus, STATUS_ACKNOWLEDGE, STATUS_DRIVER, STATUS_DRIVER_OK, STATUS_FEATURES_OK, Transport,
    config_snapshot_result, config_snapshot_spec, registrations_kept,
};
use super::Error;

verus! {

/// Receive queue index.
pub const QUEUE_RECEIVE: u16 = 0;
/// Transmit queue index.
pub const QUEUE_TRANSMIT: u16 = 1;
/// Size of the VirtIO net header prepended to every frame.
pub const NET_HDR_SIZE: usize = 10;
/// Minimum receive buffer length (maximum frame plus header).
pub const MIN_BUFFER_LEN: usize = 1526;

/// Feature bit: the device has a MAC address.
pub const FEATURE_MAC: u64 = 1u64 << 5;
/// Feature bit: the config `status` (link state) field is available.
pub const FEATURE_STATUS: u64 = 1u64 << 16;
/// Feature bit: indirect descriptors.
pub const FEATURE_RING_INDIRECT_DESC: u64 = 1u64 << 28;
/// Feature bit: event-index notification suppression.
pub const FEATURE_RING_EVENT_IDX: u64 = 1u64 << 29;
/// Features this driver supports.
pub const SUPPORTED_FEATURES: u64 = 0x3001_0020;

/// Config `status` bit: link up.
pub const STATUS_LINK_UP: u16 = 1;

/// An Ethernet MAC address.
pub type EthernetAddress = [u8; 6];

/// Validate a receive buffer length.
pub open spec fn rx_buf_len_ok(len: nat) -> bool {
    len >= MIN_BUFFER_LEN
}

/// Validate a transmit buffer length.
pub open spec fn tx_buf_len_ok(len: nat) -> bool {
    len >= NET_HDR_SIZE
}

/// Whether a receive buffer is large enough.
pub fn check_rx_buf_len(rx_buf: &[u8]) -> (r: Result<(), Error>)
    ensures
        r is Ok <==> rx_buf_len_ok(rx_buf@.len()),
        r is Ok <==> rx_buf@.len() >= MIN_BUFFER_LEN,
        r is Err ==> r == Err::<(), Error>(Error::InvalidParam),
{
    if rx_buf.len() < MIN_BUFFER_LEN {
        Err(Error::InvalidParam)
    } else {
        Ok(())
    }
}

/// Whether a transmit buffer is large enough.
pub fn check_tx_buf_len(tx_buf: &[u8]) -> (r: Result<(), Error>)
    ensures
        r is Ok <==> tx_buf_len_ok(tx_buf@.len()),
        r is Ok <==> tx_buf@.len() >= NET_HDR_SIZE,
        r is Err ==> r == Err::<(), Error>(Error::InvalidParam),
{
    if tx_buf.len() < NET_HDR_SIZE {
        Err(Error::InvalidParam)
    } else {
        Ok(())
    }
}

/// A transmit buffer only needs room for the virtio-net header: every
/// buffer at least that long may be sent, shorter ones are refused, and
/// every buffer a receive accepts may also be sent; a receive buffer must
/// hold a whole maximum frame, so a header-sized buffer can be sent but not
/// received into.
pub proof fn lemma_buffer_checks(len: nat)
    ensures
        tx_buf_len_ok(len) <==> len >= NET_HDR_SIZE,
        rx_buf_len_ok(len) <==> len >= NET_HDR_SIZE + 1516,
        rx_buf_len_ok(len) ==> tx_buf_len_ok(len),
        tx_buf_len_ok(NET_HDR_SIZE as nat) && !rx_buf_len_ok(NET_HDR_SIZE as nat),
{
}

/// Header and packet lengths of a completed receive whose used length is
/// `used_len`: the header is [`NET_HDR_SIZE`] bytes and the packet is the
/// rest; a completion shorter than the header is an I/O error.
pub fn receive_lengths(used_len: u32) -> (r: Result<(usize, usize), Error>)
    ensures
        used_len >= NET_HDR_SIZE ==> r == Ok::<(usize, usize), Error>(
            (NET_HDR_SIZE, (used_len - NET_HDR_SIZE) as usize),
        ),
        used_len < NET_HDR_SIZE ==> r == Err::<(usize, usize), Error>(Error::IoError),
{
    let len = used_len as usize;
    if len < NET_HDR_SIZE {
        return Err(Error::IoError);
    }
    Ok((NET_HDR_SIZE, len - NET_HDR_SIZE))
}

/// Abstract state of the raw device's queues.
pub struct NetQueuesView {
    pub recv: QueueView,
    pub send: QueueView,
    /// A transmit queue built during a failed recovery prepare and kept
    /// because its address is registered with the transport.
    pub pending_send: Option<QueueView>,
}

/// Raw driver for a VirtIO network device.
pub struct VirtIONetRaw<H: Hal, T: Transport, const QUEUE_SIZE: usize> {
    transport: T,
    mac: EthernetAddress,
    recv_queue: VirtQueue<H, QUEUE_SIZE>,
    send_queue: VirtQueue<H, QUEUE_SIZE>,
    pending_send: Option<VirtQueue<H, QUEUE_SIZE>>,
    status_reads: Ghost<Seq<DeviceStatus>>,
    link_reads: Ghost<Seq<LinkRead>>,
    queue_builds: Ghost<Seq<QueueBuild>>,
    freed: Ghost<Seq<DmaRegion>>,
}

/// One queue construction: the queue index, the transport's answers
/// (whether the queue is in use; the device's maximum size, 0 when it was
/// not asked), and whether the queue was built.
pub struct QueueBuild {
    pub idx: u16,
    pub in_use: bool,
    pub max: u32,
    pub built: bool,
}

/// A construction decided as [`queue_admission`](super::queue::queue_admission)
/// decides on the transport's answers.
pub open spec fn build_admitted(b: QueueBuild, size: nat) -> bool {
    b.built == admission_spec(size, b.in_use, b.max) is Ok
}

/// One guarded read of the config `status` field: the config generation
/// before, the status word, and the generation after.
pub struct LinkRead {
    pub before: Option<u8>,
    pub status: u16,
    pub after: Option<u8>,
}

/// The link state a guarded read yields: the link bit of the status word
/// when the generation did not move across the read, [`Error::Retry`]
/// otherwise.
pub open spec fn link_status_spec(before: Option<u8>, after: Option<u8>, status: u16) -> Result<
    bool,
    Error,
> {
    config_snapshot_spec(before, after, Ok(status & STATUS_LINK_UP != 0))
}

/// Decide a guarded link-status read from the generations observed around
/// it and the status word read.
pub fn link_status_from(before: Option<u8>, after: Option<u8>, status: u16) -> (r: Result<
    bool,
    Error,
>)
    ensures
        r == link_status_spec(before, after, status),
{
    config_snapshot_result(before, after, Ok(status & STATUS_LINK_UP != 0))
}

/// The DMA regions backing a pending transmit queue, if there is one.
pub open spec fn pending_backing(q: NetQueuesView) -> Seq<DmaRegion> {
    match q.pending_send {
        Some(p) => p.backing,
        None => Seq::empty(),
    }
}

/// Every DMA region the device's queues own: transmit, receive, then a
/// pending transmit queue's.
pub open spec fn owned_backing(q: NetQueuesView) -> Seq<DmaRegion> {
    q.send.backing + q.recv.backing + pending_backing(q)
}

/// A freshly built queue for index `idx`.
pub open spec fn fresh_queue(q: QueueView, idx: u16, size: nat) -> bool {
    &&& q.idx == idx
    &&& q.num_free == size
    &&& 0 < size
    &&& q.dev_notify
    &&& 1 <= q.backing.len() <= 2
}

impl<H: Hal, T: Transport, const QUEUE_SIZE: usize> VirtIONetRaw<H, T, QUEUE_SIZE> {
    /// The abstract state of the queues.
    pub closed spec fn queues(&self) -> NetQueuesView {
        NetQueuesView {
            recv: self.recv_queue.view(),
            send: self.send_queue.view(),
            pending_send: match self.pending_send {
                Some(q) => Some(q.view()),
                None => None,
            },
        }
    }

    /// The MAC address read at creation.
    pub closed spec fn mac_spec(&self) -> EthernetAddress {
        self.mac
    }

    /// The DMA regions this device handed back to the platform, in order.
    pub closed spec fn freed(&self) -> Seq<DmaRegion> {
        self.freed@
    }

    /// The queue constructions made by recovery steps, in order.
    pub closed spec fn queue_builds(&self) -> Seq<QueueBuild> {
        self.queue_builds@
    }

    /// The guarded link-status reads made, in order.
    pub closed spec fn link_reads(&self) -> Seq<LinkRead> {
        self.link_reads@
    }

    /// The device status values read by recovery steps, in order.
    pub closed spec fn status_reads(&self) -> Seq<DeviceStatus> {
        self.status_reads@
    }

    /// Bounds the device keeps.
    pub closed spec fn wf(&self) -> bool {
        &&& self.recv_queue.wf()
        &&& self.send_queue.wf()
        &&& self.recv_queue.view().idx == QUEUE_RECEIVE
        &&& self.send_queue.view().idx == QUEUE_TRANSMIT
    }

    /// Build queue `idx` on `transport`, recording the transport's answers.
    fn build_queue(transport: &mut T, idx: u16, indirect: bool, event_idx: bool) -> (r: (
        Result<VirtQueue<H, QUEUE_SIZE>, Error>,
        Ghost<QueueBuild>,
    ))
        ensures
            r.1@.idx == idx,
            r.1@.built == r.0 is Ok,
            build_admitted(r.1@, QUEUE_SIZE as nat),
            final(transport).queue_used_answer() == Some((idx, r.1@.in_use)),
            r.0 matches Err(e) ==> admission_spec(QUEUE_SIZE as nat, r.1@.in_use, r.1@.max) == Err::<
                (),
                Error,
            >(e),
            final(transport).status_written() == old(transport).status_written(),
            final(transport).driver_features_written() == old(transport).driver_features_written(),
            final(transport).device_features() == old(transport).device_features(),
            final(transport).ack_requests() == old(transport).ack_requests(),
            r.0 matches Ok(q) ==> q.wf() && fresh_queue(q.view(), idx, QUEUE_SIZE as nat)
                && q.view().indirect == indirect && q.view().event_idx == event_idx
                && final(transport).queue_registration(idx) == Some(registration_of(q.view()))
                && forall|k: u16|
                k != idx ==> #[trigger] final(transport).queue_registration(k) == old(
                    transport,
                ).queue_registration(k),
            r.0 is Err ==> registrations_kept(*old(transport), *final(transport)),
    {
        let r = VirtQueue::<H, QUEUE_SIZE>::new(transport, idx, indirect, event_idx);
        let ghost in_use = transport.queue_used_answer().unwrap().1;
        let ghost max: u32 = if !in_use && size_valid(QUEUE_SIZE as nat) {
            transport.max_queue_size_answer().unwrap().1
        } else {
            0u32
        };
        let ghost b = QueueBuild { idx, in_use, max, built: r is Ok };
        (r, Ghost(b))
    }

    /// Create the driver: negotiate features, read the MAC, build the
    /// transmit then the receive queue, and publish DRIVER_OK. A queue
    /// failure releases whatever was built and reports the error.
    pub fn new(transport: T) -> (r: Result<Self, Error>)
        ensures
            r matches Ok(d) ==> d.wf() && fresh_queue(d.queues().send, QUEUE_TRANSMIT, QUEUE_SIZE as nat)
                && fresh_queue(d.queues().recv, QUEUE_RECEIVE, QUEUE_SIZE as nat)
                && d.queues().pending_send is None,
            r matches Err(e) ==> e == Error::AlreadyUsed || e == Error::InvalidParam,
            (!is_power_of_two(QUEUE_SIZE as nat) || QUEUE_SIZE > u16::MAX) ==> r is Err,
            r matches Ok(d) ==> ({
                let features = transport.device_features() & SUPPORTED_FEATURES;
                &&& d.transport_spec().driver_features_written() == features
                &&& d.transport_spec().status_written().bits == STATUS_ACKNOWLEDGE | STATUS_DRIVER
                    | STATUS_FEATURES_OK | STATUS_DRIVER_OK
                &&& d.queues().send.indirect == (features & FEATURE_RING_INDIRECT_DESC != 0)
                &&& d.queues().recv.indirect == (features & FEATURE_RING_INDIRECT_DESC != 0)
                &&& d.queues().send.event_idx == (features & FEATURE_RING_EVENT_IDX != 0)
                &&& d.queues().recv.event_idx == (features & FEATURE_RING_EVENT_IDX != 0)
                &&& d.status_reads() == Seq::<DeviceStatus>::empty()
                &&& d.link_reads() == Seq::<LinkRead>::empty()
                &&& d.queue_builds().len() == 2
                &&& d.queue_builds()[0].idx == QUEUE_TRANSMIT && d.queue_builds()[0].built
                    && build_admitted(d.queue_builds()[0], QUEUE_SIZE as nat)
                &&& d.queue_builds()[1].idx == QUEUE_RECEIVE && d.queue_builds()[1].built
                    && build_admitted(d.queue_builds()[1], QUEUE_SIZE as nat)
                &&& d.transport_spec().queue_registration(QUEUE_TRANSMIT) == Some(
                    registration_of(d.queues().send),
                )
                &&& d.transport_spec().queue_registration(QUEUE_RECEIVE) == Some(
                    registration_of(d.queues().recv),
                )
                &&& forall|k: u16|
                    k != QUEUE_TRANSMIT && k != QUEUE_RECEIVE ==> #[trigger] d.transport_spec().queue_registration(
                        k,
                    ) == transport.queue_registration(k)
                &&& d.freed() == Seq::<DmaRegion>::empty()
            }),
    {
        let mut transport = transport;
        let negotiated = transport.begin_init(SUPPORTED_FEATURES);
        let mac = transport.config_mac();
        let indirect = negotiated & FEATURE_RING_INDIRECT_DESC != 0;
        let event_idx = negotiated & FEATURE_RING_EVENT_IDX != 0;
        let (send_built, Ghost(b_send)) = Self::build_queue(
            &mut transport,
            QUEUE_TRANSMIT,
            indirect,
            event_idx,
        );
        let send_queue = match send_built {
            Ok(q) => q,
            Err(e) => return Err(e),
        };
        let (recv_built, Ghost(b_recv)) = Self::build_queue(
            &mut transport,
            QUEUE_RECEIVE,
            indirect,
            event_idx,
        );
        let recv_queue = match recv_built {
            Ok(q) => q,
            Err(e) => {
                send_queue.release();
                return Err(e);
            },
        };
        transport.finish_init();
        Ok(
            VirtIONetRaw {
                transport,
                mac,
                recv_queue,
                send_queue,
                pending_send: None,
                status_reads: Ghost(Seq::empty()),
                link_reads: Ghost(Seq::empty()),
                queue_builds: Ghost(Seq::empty().push(b_send).push(b_recv)),
                freed: Ghost(Seq::empty()),
            },
        )
    }

    /// Acknowledge interrupt through the transport (counted as one more
    /// acknowledgement request); returns whether one was pending. Whether
    /// one was pending is the device's answer, so no clause fixes it.
    pub fn ack_interrupt(&mut self) -> (r: bool)
        ensures
            final(self).queues() == old(self).queues(),
            final(self).mac_spec() == old(self).mac_spec(),
            final(self).transport_spec().ack_requests() == vstd::wrapping::u64_specs::wrapping_add(
                old(self).transport_spec().ack_requests(),
                1,
            ),
            final(self).transport_spec().status_written() == old(self).transport_spec().status_written(),
            registrations_kept(old(self).transport_spec(), final(self).transport_spec()),
    {
        self.transport.ack_interrupt()
    }

    /// Initiate a full device reset by writing the empty device status.
    pub fn begin_reset(&mut self)
        ensures
            final(self).queues() == old(self).queues(),
            final(self).mac_spec() == old(self).mac_spec(),
            final(self).transport_spec().status_written().bits == 0,
    {
        self.transport.begin_reset();
    }

    /// Whether the device confirmed it stopped accessing its queues after a
    /// [`Self::begin_reset`]: the status it reports now reads back empty.
    /// The status read is recorded.
    pub fn reset_confirmed(&mut self) -> (r: bool)
        ensures
            final(self).status_reads().len() == old(self).status_reads().len() + 1,
            final(self).status_reads().drop_last() == old(self).status_reads(),
            r == (final(self).status_reads().last().bits == 0),
            final(self).queues() == old(self).queues(),
            final(self).mac_spec() == old(self).mac_spec(),
            final(self).transport_spec() == old(self).transport_spec(),
            final(self).link_reads() == old(self).link_reads(),
            final(self).freed() == old(self).freed(),
    {
        let status = self.device_status();
        status.is_empty()
    }

    /// Read back the device status register, as the device reports it at
    /// the time of the read (it may differ from what the driver last wrote).
    /// The value read is recorded.
    pub fn device_status(&mut self) -> (s: DeviceStatus)
        ensures
            final(self).status_reads() == old(self).status_reads().push(s),
            final(self).queues() == old(self).queues(),
            final(self).mac_spec() == old(self).mac_spec(),
            final(self).transport_spec() == old(self).transport_spec(),
            final(self).link_reads() == old(self).link_reads(),
            final(self).freed() == old(self).freed(),
    {
        let status = self.transport.get_status();
        proof {
            self.status_reads@ = self.status_reads@.push(status);
        }
        status
    }

    /// The transport the device drives.
    pub closed spec fn transport_spec(&self) -> T {
        self.transport
    }

    /// The transport the device was created with.
    pub fn transport(&self) -> (t: &T)
        ensures
            *t == self.transport_spec(),
    {
        &self.transport
    }

    /// Mutable access to the transport; the queues and MAC are untouched.
    pub fn transport_mut(&mut self) -> (t: &mut T)
        ensures
            *t == old(self).transport_spec(),
            final(self).transport_spec() == *final(t),
            final(self).queues() == old(self).queues(),
            final(self).mac_spec() == old(self).mac_spec(),
            final(self).wf() == old(self).wf(),
    {
        &mut self.transport
    }

    /// Rebuild the queues after a confirmed reset, without publishing
    /// DRIVER_OK.
    ///
    /// Refuses with [`Error::NotReady`] (touching no queue, no DMA backing
    /// and no registration) unless the device status read now is empty.
    /// Otherwise renegotiates features and builds the transmit queue first:
    /// if that fails, nothing changes. If the receive queue then fails, the
    /// built transmit queue is retained as the pending queue (its address is
    /// registered with the transport) and the error is reported. When both
    /// build, they replace the old, confirmed-stopped queues, whose backing
    /// is released, and a previously retained pending queue is cleared and
    /// released as well. Backing is only ever released for queues whose
    /// transport registration was replaced by a newly built queue.
    pub fn reinit_prepare(&mut self) -> (r: Result<(), Error>)
        requires
            old(self).wf(),
        ensures
            final(self).wf(),
            final(self).mac_spec() == old(self).mac_spec(),
            r == Err::<(), Error>(Error::NotReady) ==> final(self).queues() == old(self).queues(),
            r is Ok ==> fresh_queue(final(self).queues().send, QUEUE_TRANSMIT, QUEUE_SIZE as nat)
                && fresh_queue(final(self).queues().recv, QUEUE_RECEIVE, QUEUE_SIZE as nat)
                && final(self).queues().pending_send is None,
            r matches Err(e) ==> e == Error::NotReady || e == Error::AlreadyUsed || e
                == Error::InvalidParam,
            final(self).status_reads().len() == old(self).status_reads().len() + 1,
            final(self).status_reads().drop_last() == old(self).status_reads(),
            (r == Err::<(), Error>(Error::NotReady)) <==> final(self).status_reads().last().bits
                != 0,
            r == Err::<(), Error>(Error::NotReady) ==> final(self).transport_spec()
                == old(self).transport_spec() && final(self).freed() == old(self).freed()
                && final(self).queue_builds() == old(self).queue_builds(),
            r is Ok ==> final(self).freed() == old(self).freed() + owned_backing(old(self).queues()),
            r != Err::<(), Error>(Error::NotReady) ==> ({
                let made = final(self).queue_builds().skip(old(self).queue_builds().len() as int);
                let t0 = old(self).transport_spec();
                let t1 = final(self).transport_spec();
                &&& final(self).queue_builds().take(old(self).queue_builds().len() as int) == old(
                    self,
                ).queue_builds()
                &&& 1 <= made.len() <= 2
                &&& forall|i: int|
                    0 <= i < made.len() ==> #[trigger] build_admitted(made[i], QUEUE_SIZE as nat)
                &&& made[0].idx == QUEUE_TRANSMIT
                &&& !made[0].built ==> made.len() == 1 && r is Err && final(self).queues() == old(
                    self,
                ).queues() && final(self).freed() == old(self).freed() && registrations_kept(
                    t0,
                    t1,
                ) && r == admission_spec(QUEUE_SIZE as nat, made[0].in_use, made[0].max)
                &&& made[0].built ==> made.len() == 2 && made[1].idx == QUEUE_RECEIVE && (r is Ok
                    <==> made[1].built)
                &&& (made[0].built && !made[1].built) ==> final(self).queues().send == old(
                    self,
                ).queues().send && final(self).queues().recv == old(self).queues().recv
                    && final(self).freed() == old(self).freed() + pending_backing(old(self).queues())
                    && r == admission_spec(QUEUE_SIZE as nat, made[1].in_use, made[1].max) && (
                final(self).queues().pending_send matches Some(p) && fresh_queue(
                    p,
                    QUEUE_TRANSMIT,
                    QUEUE_SIZE as nat,
                ) && t1.queue_registration(QUEUE_TRANSMIT) == Some(registration_of(p)))
                    && forall|k: u16|
                    k != QUEUE_TRANSMIT ==> #[trigger] t1.queue_registration(k)
                        == t0.queue_registration(k)
                &&& r is Ok ==> t1.queue_registration(QUEUE_TRANSMIT) == Some(
                    registration_of(final(self).queues().send),
                ) && t1.queue_registration(QUEUE_RECEIVE) == Some(
                    registration_of(final(self).queues().recv),
                ) && forall|k: u16|
                    k != QUEUE_TRANSMIT && k != QUEUE_RECEIVE ==> #[trigger] t1.queue_registration(
                        k,
                    ) == t0.queue_registration(k)
            }),
            r != Err::<(), Error>(Error::NotReady) ==> ({
                let features = old(self).transport_spec().device_features() & SUPPORTED_FEATURES;
                &&& final(self).transport_spec().driver_features_written() == features
                &&& final(self).transport_spec().status_written().bits == STATUS_ACKNOWLEDGE
                    | STATUS_DRIVER | STATUS_FEATURES_OK
                &&& (!is_power_of_two(QUEUE_SIZE as nat) || QUEUE_SIZE > u16::MAX) ==> r is Err
                &&& r is Ok ==> final(self).queues().send.indirect == (features
                    & FEATURE_RING_INDIRECT_DESC != 0) && final(self).queues().recv.indirect == (
                features & FEATURE_RING_INDIRECT_DESC != 0) && final(self).queues().send.event_idx
                    == (features & FEATURE_RING_EVENT_IDX != 0)
                    && final(self).queues().recv.event_idx == (features & FEATURE_RING_EVENT_IDX
                    != 0)
            }),
    {
        let status = self.transport.get_status();
        proof {
            self.status_reads@ = self.status_reads@.push(status);
        }
        assert(self.status_reads@.drop_last() =~= old(self).status_reads@);
        if !status.is_empty() {
            return Err(Error::NotReady);
        }
        let negotiated = self.transport.begin_init(SUPPORTED_FEATURES);
        let indirect = negotiated & FEATURE_RING_INDIRECT_DESC != 0;
        let event_idx = negotiated & FEATURE_RING_EVENT_IDX != 0;
        let (send_built, Ghost(b_send)) = Self::build_queue(
            &mut self.transport,
            QUEUE_TRANSMIT,
            indirect,
            event_idx,
        );
        proof {
            self.queue_builds@ = self.queue_builds@.push(b_send);
        }
        let new_send = match send_built {
            Ok(q) => q,
            Err(e) => {
                proof {
                    assert(self.queue_builds@.skip(old(self).queue_builds@.len() as int) =~= seq![
                        b_send,
                    ]);
                    assert(self.queue_builds@.take(old(self).queue_builds@.len() as int)
                        =~= old(self).queue_builds@);
                }
                return Err(e);
            },
        };
        let (recv_built, Ghost(b_recv)) = Self::build_queue(
            &mut self.transport,
            QUEUE_RECEIVE,
            indirect,
            event_idx,
        );
        proof {
            self.queue_builds@ = self.queue_builds@.push(b_recv);
            assert(self.queue_builds@.skip(old(self).queue_builds@.len() as int) =~= seq![
                b_send,
                b_recv,
            ]);
            assert(self.queue_builds@.take(old(self).queue_builds@.len() as int) =~= old(
                self,
            ).queue_builds@);
        }
        let new_recv = match recv_built {
            Ok(q) => q,
            Err(e) => {
                // Keep the built transmit queue alive: its address is
                // registered with the transport. A previously retained one
                // is replaced and released.
                let mut previous = Some(new_send);
                core::mem::swap(&mut self.pending_send, &mut previous);
                if let Some(p) = previous {
                    let Ghost(gone) = p.release();
                    proof {
                        self.freed@ = self.freed@ + gone;
                    }
                } else {
                    assert(self.freed@ =~= self.freed@ + Seq::<DmaRegion>::empty());
                }
                return Err(e);
            },
        };
        let mut old_send = new_send;
        let mut old_recv = new_recv;
        core::mem::swap(&mut self.send_queue, &mut old_send);
        core::mem::swap(&mut self.recv_queue, &mut old_recv);
        let Ghost(gone_send) = old_send.release();
        let Ghost(gone_recv) = old_recv.release();
        proof {
            self.freed@ = self.freed@ + gone_send + gone_recv;
        }
        let mut previous = None;
        core::mem::swap(&mut self.pending_send, &mut previous);
        if let Some(p) = previous {
            let Ghost(gone) = p.release();
            proof {
                self.freed@ = self.freed@ + gone;
            }
        }
        assert(self.freed@ =~= old(self).freed@ + owned_backing(old(self).queues()));
        Ok(())
    }

    /// Commit a prepared reinit by publishing DRIVER_OK.
    pub fn commit_driver_ok(&mut self) -> (r: Result<(), Error>)
        ensures
            r is Ok,
            final(self).queues() == old(self).queues(),
            final(self).mac_spec() == old(self).mac_spec(),
            final(self).transport_spec().status_written().bits == STATUS_ACKNOWLEDGE
                | STATUS_DRIVER | STATUS_FEATURES_OK | STATUS_DRIVER_OK,
    {
        self.transport.finish_init();
        Ok(())
    }

    /// Read the config `status` link bit under a config-generation guard:
    /// a consistent snapshot, or [`Error::Retry`] when an update raced it.
    /// A device without a generation counter always yields a snapshot. The
    /// link bit itself is the device's current config, which no clause
    /// fixes.
    pub fn read_link_status(&mut self) -> (r: Result<bool, Error>)
        ensures
            r is Err ==> r == Err::<bool, Error>(Error::Retry),
            !old(self).transport_spec().has_config_generation() ==> r is Ok,
            final(self).link_reads().len() == old(self).link_reads().len() + 1,
            final(self).link_reads().drop_last() == old(self).link_reads(),
            r == link_status_spec(
                final(self).link_reads().last().before,
                final(self).link_reads().last().after,
                final(self).link_reads().last().status,
            ),
            final(self).queues() == old(self).queues(),
            final(self).mac_spec() == old(self).mac_spec(),
            final(self).transport_spec() == old(self).transport_spec(),
            final(self).status_reads() == old(self).status_reads(),
            final(self).freed() == old(self).freed(),
    {
        let before = self.transport.config_generation();
        let status = self.transport.config_status();
        let after = self.transport.config_generation();
        proof {
            self.link_reads@ = self.link_reads@.push(LinkRead { before, status, after });
        }
        assert(self.link_reads@.drop_last() =~= old(self).link_reads@);
        link_status_from(before, after, status)
    }

    /// Disable used-buffer notifications on both queues.
    pub fn disable_interrupts(&mut self)
        ensures
            final(self).queues() == (NetQueuesView {
                send: QueueView { dev_notify: false, ..old(self).queues().send },
                recv: QueueView { dev_notify: false, ..old(self).queues().recv },
                ..old(self).queues()
            }),
            final(self).wf() == old(self).wf(),
            final(self).mac_spec() == old(self).mac_spec(),
    {
        self.send_queue.set_dev_notify(false);
        self.recv_queue.set_dev_notify(false);
    }

    /// Enable used-buffer notifications on both queues.
    pub fn enable_interrupts(&mut self)
        ensures
            final(self).queues() == (NetQueuesView {
                send: QueueView { dev_notify: true, ..old(self).queues().send },
                recv: QueueView { dev_notify: true, ..old(self).queues().recv },
                ..old(self).queues()
            }),
            final(self).wf() == old(self).wf(),
            final(self).mac_spec() == old(self).mac_spec(),
    {
        self.send_queue.set_dev_notify(true);
        self.recv_queue.set_dev_notify(true);
    }

    /// Suppress receive-queue notifications; the transmit queue is unchanged.
    pub fn suppress_rx_notify(&mut self)
        ensures
            final(self).queues() == (NetQueuesView {
                recv: QueueView { dev_notify: false, ..old(self).queues().recv },
                ..old(self).queues()
            }),
            final(self).wf() == old(self).wf(),
            final(self).mac_spec() == old(self).mac_spec(),
    {
        self.recv_queue.suppress_dev_notify();
    }

    /// Suppress transmit-queue notifications; the receive queue is unchanged.
    pub fn suppress_tx_notify(&mut self)
        ensures
            final(self).queues() == (NetQueuesView {
                send: QueueView { dev_notify: false, ..old(self).queues().send },
                ..old(self).queues()
            }),
            final(self).wf() == old(self).wf(),
            final(self).mac_spec() == old(self).mac_spec(),
    {
        self.send_queue.suppress_dev_notify();
    }

    /// The MAC address.
    pub fn mac_address(&self) -> (m: EthernetAddress)
        ensures
            m == self.mac_spec(),
    {
        self.mac
    }

    /// Whether a packet can be sent (a send descriptor is free).
    pub fn can_send(&self) -> (r: bool)
        ensures
            r == (self.queues().send.num_free >= 1),
    {
        self.send_queue.available_desc() >= 1
    }

    /// Number of free descriptors in the send queue.
    pub fn send_available_desc(&self) -> (n: usize)
        ensures
            n == self.queues().send.num_free,
    {
        self.send_queue.available_desc()
    }

    /// Fill the front of `buffer` with the (all-zero) default net header and
    /// return its size, or [`Error::InvalidParam`] when the buffer is too
    /// small (left unchanged).
    pub fn fill_buffer_header(&self, buffer: &mut [u8]) -> (r: Result<usize, Error>)
        ensures
            r is Ok <==> old(buffer)@.len() >= NET_HDR_SIZE,
            r is Err ==> r == Err::<usize, Error>(Error::InvalidParam) && final(buffer)@ == old(
                buffer,
            )@,
            r is Ok ==> r == Ok::<usize, Error>(NET_HDR_SIZE) && final(buffer)@.len() == old(
                buffer,
            )@.len() && (forall|i: int| 0 <= i < NET_HDR_SIZE ==> final(buffer)@[i] == 0u8) && (
            forall|i: int| NET_HDR_SIZE <= i < old(buffer)@.len() ==> final(buffer)@[i] == old(
                buffer,
            )@[i]),
    {
        if buffer.len() < NET_HDR_SIZE {
            return Err(Error::InvalidParam);
        }
        let mut i: usize = 0;
        while i < NET_HDR_SIZE
            invariant
                i <= NET_HDR_SIZE <= buffer@.len(),
                buffer@.len() == old(buffer)@.len(),
                forall|j: int| 0 <= j < i ==> buffer@[j] == 0u8,
                forall|j: int| i <= j < buffer@.len() ==> buffer@[j] == old(buffer)@[j],
            decreases NET_HDR_SIZE - i,
        {
            buffer[i] = 0u8;
            i = i + 1;
        }
        Ok(NET_HDR_SIZE)
    }

    /// Tear the device down: clear both queue registrations at the transport
    /// so the device stops accessing them, then release every queue's DMA
    /// backing, including a retained pending queue. Returns the regions
    /// handed back, in order.
    pub fn release_device(self) -> (freed: Ghost<Seq<DmaRegion>>)
        ensures
            freed@ == self.queues().recv.backing + self.queues().send.backing + pending_backing(
                self.queues(),
            ),
    {
        let mut transport = self.transport;
        transport.queue_unset(QUEUE_RECEIVE);
        transport.queue_unset(QUEUE_TRANSMIT);
        let Ghost(gone_recv) = self.recv_queue.release();
        let Ghost(gone_send) = self.send_queue.release();
        let ghost mut freed = gone_recv + gone_send;
        if let Some(p) = self.pending_send {
            let Ghost(gone) = p.release();
            proof {
                freed = freed + gone;
            }
        } else {
            assert(freed =~= freed + Seq::<DmaRegion>::empty());
        }
        Ghost(freed)
    }

    /// The retained partial transmit queue, if a recovery prepare failed
    /// after building it.
    pub fn has_pending_send(&self) -> (r: bool)
        ensures
            r == (self.queues().pending_send is Some),
    {
        self.pending_send.is_some()
    }
}

} // verus!
