//! Occupancy arithmetic of the lock-free SPSC byte ring shared by the UART
//! copier tasks and their consumers.
//!
//! The ring stores a `start` (read) and `end` (write) index, each in
//! `0 .. 2 * capacity`; the doubled range distinguishes a full ring from an
//! empty one. These functions turn one index snapshot into readiness hints.

use vstd::prelude::*;

verus! {

/// Indices of a ring of `capacity` bytes that are in range and at most
/// `capacity` apart (in the doubled index space).
pub open spec fn ring_indices_valid(start: usize, end: usize, capacity: usize) -> bool {
    &&& start < 2 * capacity
    &&& end < 2 * capacity
    &&& distance_spec(start, end, capacity) <= capacity
}

/// The number of readable bytes between `start` and `end`.
pub open spec fn distance_spec(start: usize, end: usize, capacity: usize) -> int {
    if end >= start {
        end - start
    } else {
        end + 2 * capacity - start
    }
}

/// Number of readable bytes between `start` and `end`.
pub fn ring_distance(start: usize, end: usize, capacity: usize) -> (d: usize)
    requires
        start < 2 * capacity,
        end < 2 * capacity,
        2 * capacity <= usize::MAX,
    ensures
        d == distance_spec(start, end, capacity),
        d < 2 * capacity,
{
    if end >= start {
        end - start
    } else {
        end + (capacity * 2 - start)
    }
}

/// Readiness hint: readable bytes in the ring (all segments, not just the
/// first contiguous chunk).
pub fn occupied_len(start: usize, end: usize, capacity: usize) -> (n: usize)
    requires
        start < 2 * capacity,
        end < 2 * capacity,
        2 * capacity <= usize::MAX,
    ensures
        n == distance_spec(start, end, capacity),
        ring_indices_valid(start, end, capacity) ==> n <= capacity,
{
    ring_distance(start, end, capacity)
}

/// Readiness hint: bytes the ring can currently accept (`capacity -
/// occupied`, all segments).
pub fn vacant_len(start: usize, end: usize, capacity: usize) -> (n: usize)
    requires
        ring_indices_valid(start, end, capacity),
        2 * capacity <= usize::MAX,
    ensures
        n == capacity - distance_spec(start, end, capacity),
{
    capacity - ring_distance(start, end, capacity)
}

/// Readable and writable space always add up to the capacity, and a ring
/// is empty exactly when its two indices are equal.
pub proof fn lemma_occupied_plus_vacant(start: usize, end: usize, capacity: usize)
    requires
        ring_indices_valid(start, end, capacity),
    ensures
        distance_spec(start, end, capacity) + (capacity - distance_spec(start, end, capacity))
            == capacity,
        (distance_spec(start, end, capacity) == 0) == (start == end),
{
}

/// Advancing the write index by `n` (modulo the doubled range) adds exactly
/// `n` readable bytes, as long as they fit.
pub proof fn lemma_push_adds_occupancy(start: usize, end: usize, capacity: usize, n: int)
    requires
        ring_indices_valid(start, end, capacity),
        2 * capacity <= usize::MAX,
        0 <= n <= capacity - distance_spec(start, end, capacity),
    ensures
        ({
            let new_end = ((end + n) % (2 * capacity)) as usize;
            distance_spec(start, new_end, capacity) == distance_spec(start, end, capacity) + n
        }),
{
    let m: int = 2 * capacity;
    if end + n >= m {
        vstd::arithmetic::div_mod::lemma_mod_sub_multiples_vanish(end + n, m);
        vstd::arithmetic::div_mod::lemma_small_mod((end + n - m) as nat, m as nat);
        assert((end + n) % m == end + n - m);
    } else {
        vstd::arithmetic::div_mod::lemma_small_mod((end + n) as nat, m as nat);
        assert((end + n) % m == end + n);
    }
}

} // verus!
