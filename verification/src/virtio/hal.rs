//! DMA allocation interface and owned DMA regions.

use vstd::prelude::*;

use super::PAGE_SIZE;

verus! {

/// Platform services the VirtIO layer needs: physically contiguous,
/// zeroed, DMA-capable pages.
pub trait Hal {
    /// Allocate `pages` zeroed, physically contiguous pages; returns their
    /// physical address.
    fn dma_alloc(pages: usize) -> usize;

    /// Free pages previously returned by `dma_alloc` with the same count.
    fn dma_dealloc(paddr: usize, pages: usize) -> i32;
}

/// A DMA region owned by a queue: its physical address and page count.
#[derive(Debug, Clone, Copy, PartialEq, Eq, Structural)]
pub struct DmaRegion {
    pub paddr: usize,
    pub pages: usize,
}

/// Allocate a DMA region of `pages` pages.
pub fn dma_new<H: Hal>(pages: usize) -> (r: DmaRegion)
    ensures
        r.pages == pages,
{
    DmaRegion { paddr: H::dma_alloc(pages), pages }
}

/// Return a DMA region to the platform.
pub fn dma_release<H: Hal>(r: DmaRegion) {
    let _ = H::dma_dealloc(r.paddr, r.pages);
}

/// Number of pages needed for `bytes` bytes.
pub open spec fn pages_for(bytes: nat) -> nat {
    ((bytes + PAGE_SIZE - 1) / (PAGE_SIZE as int)) as nat
}

/// Number of pages needed for `bytes` bytes.
pub fn pages(bytes: usize) -> (n: usize)
    requires
        bytes <= usize::MAX - PAGE_SIZE,
    ensures
        n == pages_for(bytes as nat),
{
    (bytes + PAGE_SIZE - 1) / PAGE_SIZE
}

} // verus!
