//! Lifecycle of a split virtqueue: creation against a transport, DMA
//! backing, free-descriptor accounting, notification suppression, and
//! release.

use vstd::prelude::*;

use super::hal::{DmaRegion, Hal, dma_new, dma_release, pages, pages_for};
use super::transport::{QueueRegistration, Transport, registrations_kept};
use super::{Error, PAGE_SIZE};

verus! {

/// Size in bytes of one descriptor.
pub const DESC_SIZE: usize = 16;

/// Bytes of the descriptor table and the available ring of a queue of
/// `size` entries.
pub open spec fn driver_bytes_spec(size: nat) -> nat {
    DESC_SIZE as nat * size + 6 + 2 * size
}

/// Whether `size` is a valid queue size: a power of two that fits a `u16`.
pub open spec fn size_valid(size: nat) -> bool {
    is_power_of_two(size) && size <= u16::MAX
}

/// Whether a queue of `size` entries may be created, given whether the
/// transport reports the queue in use and the device's maximum size.
pub open spec fn admission_spec(size: nat, in_use: bool, max: u32) -> Result<(), Error> {
    if in_use {
        Err(Error::AlreadyUsed)
    } else if !size_valid(size) {
        Err(Error::InvalidParam)
    } else if max < size {
        Err(Error::InvalidParam)
    } else {
        Ok(())
    }
}

/// Decide whether a queue of `size` entries may be created: already in use
/// is [`Error::AlreadyUsed`]; a size that is not a power of two, does not
/// fit a `u16`, or exceeds the device's maximum is [`Error::InvalidParam`].
pub fn queue_admission(size: usize, in_use: bool, max: u32) -> (r: Result<(), Error>)
    ensures
        r == admission_spec(size as nat, in_use, max),
{
    if in_use {
        return Err(Error::AlreadyUsed);
    }
    if !size_is_power_of_two(size) || size > 0xffff {
        return Err(Error::InvalidParam);
    }
    if (max as usize) < size {
        return Err(Error::InvalidParam);
    }
    Ok(())
}

/// The registration a queue is made with: its size, the first region's
/// address as descriptor table, the available ring right after the
/// descriptors, and the used ring after the driver area's pages in the
/// legacy single-region layout or at the second region otherwise.
pub open spec fn registration_of(q: QueueView) -> QueueRegistration {
    let desc = q.backing[0].paddr;
    QueueRegistration {
        size: q.size as u32,
        descriptors: desc,
        driver_area: vstd::wrapping::usize_specs::wrapping_add(desc, (DESC_SIZE as nat * q.size) as usize),
        device_area: if q.backing.len() == 1 {
            vstd::wrapping::usize_specs::wrapping_add(
                desc,
                (pages_for(driver_bytes_spec(q.size)) * PAGE_SIZE) as usize,
            )
        } else {
            q.backing[1].paddr
        },
    }
}

/// Abstract state of a virtqueue.
pub struct QueueView {
    /// Queue index at the transport.
    pub idx: u16,
    /// Number of entries.
    pub size: nat,
    /// Free descriptors.
    pub num_free: nat,
    /// Whether used-buffer notifications from the device are enabled.
    pub dev_notify: bool,
    /// Whether indirect descriptors were negotiated.
    pub indirect: bool,
    /// Whether event-index notification suppression was negotiated.
    pub event_idx: bool,
    /// The DMA regions backing the queue.
    pub backing: Seq<DmaRegion>,
}

/// A split virtqueue of `SIZE` entries whose rings live in DMA memory
/// provided by `H`.
pub struct VirtQueue<H: Hal, const SIZE: usize> {
    idx: u16,
    num_free: u16,
    dev_notify: bool,
    indirect: bool,
    event_idx: bool,
    backing: Vec<DmaRegion>,
    hal: core::marker::PhantomData<H>,
}

impl<H: Hal, const SIZE: usize> VirtQueue<H, SIZE> {
    /// The abstract state of this queue.
    pub closed spec fn view(&self) -> QueueView {
        QueueView {
            idx: self.idx,
            size: SIZE as nat,
            num_free: self.num_free as nat,
            dev_notify: self.dev_notify,
            indirect: self.indirect,
            event_idx: self.event_idx,
            backing: self.backing@,
        }
    }

    /// Bounds every queue keeps.
    pub closed spec fn wf(&self) -> bool {
        &&& self.num_free <= SIZE
        &&& SIZE <= u16::MAX
    }

    /// Create the queue `idx` and register it with the transport.
    ///
    /// Asks the transport whether the queue is in use, then (unless it is,
    /// or `SIZE` is not a valid queue size) the device's maximum size; the
    /// answers decide as [`queue_admission`] does. An admitted queue gets
    /// its DMA backing and is registered with the transport at exactly the
    /// addresses of [`registration_of`]. A new queue has every descriptor
    /// free and device notifications enabled; its rings use one DMA region
    /// in the legacy layout and two otherwise.
    pub fn new<T: Transport>(transport: &mut T, idx: u16, indirect: bool, event_idx: bool) -> (r:
        Result<Self, Error>)
        ensures
            r matches Ok(q) ==> q.wf() && q.view().idx == idx && q.view().num_free == SIZE
                && q.view().dev_notify && q.view().indirect == indirect && q.view().event_idx
                == event_idx && 1 <= q.view().backing.len() <= 2,
            r matches Err(e) ==> e == Error::AlreadyUsed || e == Error::InvalidParam,
            (!is_power_of_two(SIZE as nat) || SIZE > u16::MAX) ==> r is Err,
            r is Ok ==> 0 < SIZE <= u16::MAX,
            final(transport).status_written() == old(transport).status_written(),
            final(transport).driver_features_written() == old(transport).driver_features_written(),
            final(transport).device_features() == old(transport).device_features(),
            final(transport).ack_requests() == old(transport).ack_requests(),
            final(transport).queue_used_answer() matches Some((q, _)) && q == idx,
            ({
                let in_use = final(transport).queue_used_answer().unwrap().1;
                let asks_max = !in_use && size_valid(SIZE as nat);
                let max = if asks_max {
                    final(transport).max_queue_size_answer().unwrap().1
                } else {
                    0u32
                };
                &&& asks_max ==> (final(transport).max_queue_size_answer() matches Some((q, _))
                    && q == idx)
                &&& !asks_max ==> final(transport).max_queue_size_answer() == old(
                    transport,
                ).max_queue_size_answer()
                &&& r is Ok <==> admission_spec(SIZE as nat, in_use, max) is Ok
                &&& r matches Err(e) ==> admission_spec(SIZE as nat, in_use, max) == Err::<
                    (),
                    Error,
                >(e)
            }),
            r matches Ok(q) ==> final(transport).queue_registration(idx) == Some(
                registration_of(q.view()),
            ) && forall|k: u16|
                k != idx ==> #[trigger] final(transport).queue_registration(k) == old(
                    transport,
                ).queue_registration(k),
            r is Err ==> registrations_kept(*old(transport), *final(transport)),
    {
        let in_use = transport.queue_used(idx);
        let asks_max = !in_use && size_is_power_of_two(SIZE) && SIZE <= 0xffff;
        let max = if asks_max {
            transport.max_queue_size(idx)
        } else {
            0
        };
        match queue_admission(SIZE, in_use, max) {
            Err(e) => return Err(e),
            Ok(()) => {},
        }
        assert(SIZE <= 0xffff);
        let driver_bytes = DESC_SIZE * SIZE + 6 + 2 * SIZE;
        let device_bytes = 6 + 8 * SIZE;
        let mut backing: Vec<DmaRegion> = Vec::new();
        if transport.requires_legacy_layout() {
            let driver_pages = pages(driver_bytes);
            let device_pages = pages(device_bytes);
            let region = dma_new::<H>(driver_pages + device_pages);
            let desc = region.paddr;
            let driver_area = desc.wrapping_add(DESC_SIZE * SIZE);
            let device_area = desc.wrapping_add(driver_pages * super::PAGE_SIZE);
            transport.queue_set(idx, SIZE as u32, desc, driver_area, device_area);
            backing.push(region);
        } else {
            let driver_region = dma_new::<H>(pages(driver_bytes));
            let device_region = dma_new::<H>(pages(device_bytes));
            let desc = driver_region.paddr;
            let driver_area = desc.wrapping_add(DESC_SIZE * SIZE);
            transport.queue_set(idx, SIZE as u32, desc, driver_area, device_region.paddr);
            backing.push(driver_region);
            backing.push(device_region);
        }
        let q = VirtQueue {
            idx,
            num_free: SIZE as u16,
            dev_notify: true,
            indirect,
            event_idx,
            backing,
            hal: core::marker::PhantomData,
        };
        assert(final(transport).queue_registration(idx) == Some(registration_of(q.view())));
        Ok(q)
    }

    /// Number of free descriptors.
    pub fn available_desc(&self) -> (n: usize)
        ensures
            n == self.view().num_free,
    {
        self.num_free as usize
    }

    /// Enable or disable used-buffer notifications from the device.
    pub fn set_dev_notify(&mut self, enable: bool)
        ensures
            final(self).view() == (QueueView { dev_notify: enable, ..old(self).view() }),
            final(self).wf() == old(self).wf(),
    {
        self.dev_notify = enable;
    }

    /// Suppress used-buffer notifications from the device.
    pub fn suppress_dev_notify(&mut self)
        ensures
            final(self).view() == (QueueView { dev_notify: false, ..old(self).view() }),
            final(self).wf() == old(self).wf(),
    {
        self.dev_notify = false;
    }

    /// Release the queue's DMA backing to the platform, region by region in
    /// order; returns the regions handed back.
    pub fn release(self) -> (freed: Ghost<Seq<DmaRegion>>)
        ensures
            freed@ == self.view().backing,
    {
        let backing = self.backing;
        let mut i: usize = 0;
        let ghost mut freed: Seq<DmaRegion> = Seq::empty();
        while i < backing.len()
            invariant
                i <= backing.len(),
                freed == backing@.take(i as int),
            decreases backing.len() - i,
        {
            dma_release::<H>(backing[i]);
            proof {
                freed = freed.push(backing@[i as int]);
                assert(freed =~= backing@.take(i + 1));
            }
            i = i + 1;
        }
        proof {
            assert(freed =~= backing@);
        }
        Ghost(freed)
    }
}

/// Whether `n` is a power of two.
pub open spec fn is_power_of_two(n: nat) -> bool
    decreases n,
{
    if n == 1 {
        true
    } else if n == 0 || n % 2 == 1 {
        false
    } else {
        is_power_of_two(n / 2)
    }
}

/// Whether `n` is a power of two.
pub fn size_is_power_of_two(n: usize) -> (r: bool)
    ensures
        r == is_power_of_two(n as nat),
{
    let mut m = n;
    while m > 1 && m % 2 == 0
        invariant
            is_power_of_two(m as nat) == is_power_of_two(n as nat),
        decreases m,
    {
        m = m / 2;
    }
    m == 1
}

} // verus!
