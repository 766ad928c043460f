use std::cell::RefCell;

use starry_drivers::mm::access::{
    AccessError, PAGE_SIZE_4K, RegionError, VmError, align_down_4k, align_up_4k, check_access,
    check_region, max_contiguous_valid, null_terminated_len,
};

const P: usize = PAGE_SIZE_4K;

#[test]
fn page_alignment_helpers() {
    assert_eq!(align_down_4k(0), 0);
    assert_eq!(align_down_4k(0x1fff), 0x1000);
    assert_eq!(align_down_4k(0x2000), 0x2000);
    assert_eq!(align_up_4k(0), Some(0));
    assert_eq!(align_up_4k(0x1001), Some(0x2000));
    assert_eq!(align_up_4k(0x2000), Some(0x2000));
    assert_eq!(align_up_4k(usize::MAX), None);
}

#[test]
fn user_space_bounds() {
    let base = 0x1000;
    let size = 0x10_0000;
    assert_eq!(check_access(base, size, 0x1000, 16), Ok(()));
    assert_eq!(check_access(base, size, 0x10_0fff, 1), Ok(()));
    assert_eq!(check_access(base, size, 0x10_0fff, 2), Err(VmError::AccessDenied));
    assert_eq!(check_access(base, size, 0x0fff, 1), Err(VmError::AccessDenied));
    assert_eq!(check_access(base, size, 0x10_1000, 0), Err(VmError::AccessDenied));
    assert_eq!(check_access(base, size, 0x2000, 0), Ok(()));
}

#[test]
fn region_check_rejects_misaligned_before_asking() {
    let asked = RefCell::new(0);
    let can = |_: usize, _: usize| {
        *asked.borrow_mut() += 1;
        true
    };
    let populate = |_: usize, _: usize| -> Result<(), i32> { Ok(()) };
    assert_eq!(
        check_region(0x1002, 8, 8, &can, &populate),
        Err(RegionError::BadAddress)
    );
    assert_eq!(*asked.borrow(), 0);
}

#[test]
fn region_check_populates_covering_pages() {
    let populated = RefCell::new(Vec::new());
    let can = |s: usize, n: usize| s >= 0x1000 && s + n <= 0x9000;
    let populate = |s: usize, n: usize| -> Result<(), i32> {
        populated.borrow_mut().push((s, n));
        Ok(())
    };
    assert_eq!(check_region(0x1ff8, 16, 8, &can, &populate), Ok(()));
    assert_eq!(*populated.borrow(), vec![(0x1000, 0x2000)]);
    assert_eq!(
        check_region(0x8ff8, 16, 8, &can, &populate),
        Err(RegionError::BadAddress)
    );
    assert_eq!(populated.borrow().len(), 1);
}

#[test]
fn region_check_reports_populate_failure() {
    let can = |_: usize, _: usize| true;
    let populate = |_: usize, _: usize| -> Result<(), i32> { Err(-12) };
    assert_eq!(
        check_region(0x3000, P, 4, &can, &populate),
        Err(RegionError::Populate(-12))
    );
}

#[test]
fn max_contiguous_valid_finds_the_accessible_prefix() {
    // Accessible: the first 5 pages.
    let limit = 5 * P;
    let can = |size: usize| size <= limit;
    assert_eq!(max_contiguous_valid(0, &can), 0);
    assert_eq!(max_contiguous_valid(3 * P, &can), 3 * P);
    assert_eq!(max_contiguous_valid(64 * P, &can), 5 * P);
    assert_eq!(max_contiguous_valid(6 * P, &can), 5 * P);
    // Three-page range whose last page is missing.
    let two = |size: usize| size <= 2 * P;
    assert_eq!(max_contiguous_valid(3 * P, &two), 2 * P);
    // Nothing accessible.
    let none = |_: usize| false;
    assert_eq!(max_contiguous_valid(8 * P, &none), 0);
    // Smaller than one page and accessible.
    assert_eq!(max_contiguous_valid(100, &can), 100);
}

#[test]
fn max_contiguous_valid_unaligned_range() {
    let can = |size: usize| size <= 2 * P;
    assert_eq!(max_contiguous_valid(2 * P + 100, &can), 2 * P);
    let one = |size: usize| size <= P;
    assert_eq!(max_contiguous_valid(P + 100, &one), P);
}

/// A fake address space: `mem` holds the bytes of `[base, base + len)`,
/// and only `[base, accessible_end)` may be accessed.
struct FakeSpace {
    base: usize,
    accessible_end: usize,
    mem: Vec<u8>,
    reads_beyond: RefCell<usize>,
}

impl FakeSpace {
    fn is_zero(&self, addr: usize) -> bool {
        if addr >= self.accessible_end {
            *self.reads_beyond.borrow_mut() += 1;
        }
        self.mem[addr - self.base] == 0
    }

    fn valid_from(&self, boundary: usize) -> usize {
        let remaining = (self.base + self.mem.len()).saturating_sub(boundary);
        let end = self.accessible_end;
        max_contiguous_valid(remaining, &|size: usize| boundary + size <= end)
    }
}

#[test]
fn null_terminated_string_within_one_page() {
    let mut mem = vec![0xaau8; 4 * P];
    mem[0x10..0x15].copy_from_slice(b"hello");
    mem[0x15] = 0;
    let space = FakeSpace {
        base: 0x4000,
        accessible_end: 0x4000 + 4 * P,
        mem,
        reads_beyond: RefCell::new(0),
    };
    let r = null_terminated_len(
        0x4010,
        1,
        1,
        &|a| space.is_zero(a),
        &|b| space.valid_from(b),
    );
    assert_eq!(r, Ok(5));
}

#[test]
fn null_terminated_string_across_pages() {
    let mut mem = vec![b'x'; 4 * P];
    mem[2 * P + 7] = 0;
    let space = FakeSpace {
        base: 0x10000,
        accessible_end: 0x10000 + 4 * P,
        mem,
        reads_beyond: RefCell::new(0),
    };
    let r = null_terminated_len(
        0x10000 + P - 3,
        1,
        1,
        &|a| space.is_zero(a),
        &|b| space.valid_from(b),
    );
    assert_eq!(r, Ok(P + 10));
    assert_eq!(*space.reads_beyond.borrow(), 0);
}

#[test]
fn unterminated_string_stops_at_inaccessible_memory() {
    let mem = vec![b'y'; 4 * P];
    let space = FakeSpace {
        base: 0x20000,
        accessible_end: 0x20000 + 2 * P,
        mem,
        reads_beyond: RefCell::new(0),
    };
    let r = null_terminated_len(
        0x20000 + 16,
        1,
        1,
        &|a| space.is_zero(a),
        &|b| space.valid_from(b),
    );
    assert_eq!(r, Err(AccessError::BadAddress));
    assert_eq!(*space.reads_beyond.borrow(), 0, "never reads unvalidated memory");
}

#[test]
fn null_terminated_pointer_array_is_aligned() {
    let mut mem = vec![1u8; P];
    for b in &mut mem[24..32] {
        *b = 0;
    }
    let space = FakeSpace {
        base: 0x30000,
        accessible_end: 0x30000 + P,
        mem,
        reads_beyond: RefCell::new(0),
    };
    let is_zero = |a: usize| (0..8).all(|i| space.is_zero(a + i));
    let valid = |b: usize| space.valid_from(b);
    assert_eq!(null_terminated_len(0x30000, 8, 8, &is_zero, &valid), Ok(3));
    assert_eq!(
        null_terminated_len(0x30004, 8, 8, &is_zero, &valid),
        Err(AccessError::BadAddress)
    );
}
