//! Checks that guard kernel access to user memory.
//!
//! The address-space queries (`can_access_range`, `populate_area`, the
//! per-element reads) belong to the task's address space; they reach these
//! functions as closures, and the functions here decide what to ask, in
//! which order, and what the answers mean.

use vstd::prelude::*;

verus! {

/// Size of a base page.
pub const PAGE_SIZE_4K: usize = 4096;

/// `addr` rounded down to a page boundary.
pub open spec fn align_down_spec(addr: int) -> int {
    addr - addr % (PAGE_SIZE_4K as int)
}

/// `addr` rounded up to a page boundary.
pub open spec fn align_up_spec(addr: int) -> int {
    if addr % (PAGE_SIZE_4K as int) == 0 {
        addr
    } else {
        addr - addr % (PAGE_SIZE_4K as int) + PAGE_SIZE_4K
    }
}

/// Round an address down to a page boundary.
pub fn align_down_4k(addr: usize) -> (r: usize)
    ensures
        r == align_down_spec(addr as int),
        r % PAGE_SIZE_4K == 0,
        r <= addr,
{
    addr - addr % PAGE_SIZE_4K
}

/// Round an address up to a page boundary, if the result fits.
pub fn align_up_4k(addr: usize) -> (r: Option<usize>)
    ensures
        r is Some <==> align_up_spec(addr as int) <= usize::MAX,
        r matches Some(v) ==> v == align_up_spec(addr as int) && v % PAGE_SIZE_4K == 0 && addr <= v,
{
    let rem = addr % PAGE_SIZE_4K;
    if rem == 0 {
        Some(addr)
    } else if addr - rem > usize::MAX - PAGE_SIZE_4K {
        None
    } else {
        Some(addr - rem + PAGE_SIZE_4K)
    }
}

/// Whether `start` violates an alignment of `align` bytes (a power of two).
pub open spec fn misaligned(start: usize, align: usize) -> bool {
    start & ((align - 1) as usize) != 0
}

/// The page-granular span `(page_start, page_len)` that covers
/// `start .. start + size`, when it fits in the address space.
pub open spec fn page_span(start: usize, size: usize) -> Option<(usize, usize)> {
    let end = start + size;
    if end <= usize::MAX && align_up_spec(end) <= usize::MAX {
        let page_start = align_down_spec(start as int);
        Some((page_start as usize, (align_up_spec(end) - page_start) as usize))
    } else {
        None
    }
}

/// Why a region check failed.
#[derive(Debug, PartialEq, Eq)]
pub enum RegionError<E> {
    /// Misaligned, not accessible with the requested flags, or not
    /// representable in the address space.
    BadAddress,
    /// Populating the pages failed.
    Populate(E),
}

/// Check that `start .. start + size` may be accessed: it must be aligned
/// to `align`, the address space must allow the access (`can_access`), and
/// its pages are then populated (`populate`, called with the page-aligned
/// start and length that cover the region).
pub fn check_region<E, A: Fn(usize, usize) -> bool, P: Fn(usize, usize) -> Result<(), E>>(
    start: usize,
    size: usize,
    align: usize,
    can_access: &A,
    populate: &P,
) -> (r: Result<(), RegionError<E>>)
    requires
        align >= 1,
        forall|s: usize, n: usize| can_access.requires((s, n)),
        forall|s: usize, n: usize| populate.requires((s, n)),
    ensures
        misaligned(start, align) ==> r matches Err(RegionError::BadAddress),
        r is Ok ==> {
            &&& !misaligned(start, align)
            &&& can_access.ensures((start, size), true)
            &&& page_span(start, size) matches Some((ps, pl)) && populate.ensures((ps, pl), Ok(()))
        },
        r matches Err(RegionError::Populate(e)) ==> {
            &&& !misaligned(start, align)
            &&& can_access.ensures((start, size), true)
            &&& page_span(start, size) matches Some((ps, pl)) && populate.ensures((ps, pl), Err(e))
        },
        r matches Err(RegionError::BadAddress) ==> misaligned(start, align) || can_access.ensures(
            (start, size),
            false,
        ) || page_span(start, size) is None,
{
    if start & (align - 1) != 0 {
        return Err(RegionError::BadAddress);
    }
    if !can_access(start, size) {
        return Err(RegionError::BadAddress);
    }
    if start > usize::MAX - size {
        return Err(RegionError::BadAddress);
    }
    let page_start = align_down_4k(start);
    let page_end = match align_up_4k(start + size) {
        Some(e) => e,
        None => {
            return Err(RegionError::BadAddress);
        },
    };
    assert(page_span(start, size) == Some((page_start, (page_end - page_start) as usize)));
    let populated = populate(page_start, page_end - page_start);
    match populated {
        Ok(u) => {
            assert(u == ());
            assert(populated == Ok::<(), E>(()));
            Ok(())
        },
        Err(e) => Err(RegionError::Populate(e)),
    }
}

/// Some size not above `s` was reported inaccessible.
pub open spec fn refuted<A: Fn(usize) -> bool>(can_access: A, s: usize) -> bool {
    exists|t: usize| t <= s && #[trigger] can_access.ensures((t,), false)
}

/// The size probed first when the whole range is not accessible: one page,
/// or the whole range when it is smaller.
pub open spec fn first_probe(max_size: usize) -> usize {
    if PAGE_SIZE_4K < max_size {
        PAGE_SIZE_4K
    } else {
        max_size
    }
}

proof fn lemma_aligned_gap(a: int, b: int)
    requires
        a % 4096 == 0,
        b % 4096 == 0,
        a > b - 4096,
    ensures
        a >= b,
{
    vstd::arithmetic::div_mod::lemma_fundamental_div_mod(a, 4096);
    vstd::arithmetic::div_mod::lemma_fundamental_div_mod(b, 4096);
}

/// The maximum contiguous accessible size (bytes) from a fixed start, found
/// by binary search over page multiples of the size query `can_access`.
///
/// Returns `max_size` when the whole range is accessible, 0 when not even
/// the first page is, and otherwise a page multiple that `can_access`
/// accepted; every larger page multiple up to `max_size` (and `max_size`
/// itself) lies at or above a size that `can_access` refused, so for an
/// address space whose accessible prefix is monotone the result is the
/// largest accessible page multiple.
pub fn max_contiguous_valid<A: Fn(usize) -> bool>(max_size: usize, can_access: &A) -> (r: usize)
    requires
        forall|s: usize| can_access.requires((s,)),
    ensures
        r <= max_size,
        max_size == 0 ==> r == 0,
        r > 0 ==> can_access.ensures((r,), true),
        r == 0 && max_size > 0 ==> can_access.ensures((first_probe(max_size),), false),
        r == max_size || r == first_probe(max_size) || r % PAGE_SIZE_4K == 0,
        forall|s: usize|
            r < s <= max_size && (s % PAGE_SIZE_4K == 0 || s == max_size) ==> refuted(
                *can_access,
                s,
            ),
{
    if max_size == 0 {
        return 0;
    }
    if can_access(max_size) {
        return max_size;
    }
    assert(refuted(*can_access, max_size));
    let min_check = if PAGE_SIZE_4K < max_size {
        PAGE_SIZE_4K
    } else {
        max_size
    };
    if !can_access(min_check) {
        return 0;
    }
    let mut lo = min_check;
    let mut hi = max_size;
    while hi >= PAGE_SIZE_4K && lo <= hi - PAGE_SIZE_4K
        invariant
            min_check == first_probe(max_size),
            min_check <= lo <= hi <= max_size,
            lo == min_check || lo % PAGE_SIZE_4K == 0,
            max_size >= PAGE_SIZE_4K ==> lo % PAGE_SIZE_4K == 0,
            can_access.ensures((lo,), true),
            refuted(*can_access, max_size),
            forall|s: usize|
                hi < s <= max_size && (s % PAGE_SIZE_4K == 0 || s == max_size) ==> refuted(
                    *can_access,
                    s,
                ),
            forall|s: usize| can_access.requires((s,)),
        decreases hi - lo,
    {
        // Upper midpoint, rounded down to a page: strictly above `lo`.
        let mid = align_down_4k(lo + (hi - lo + PAGE_SIZE_4K) / 2);
        proof {
            lemma_aligned_gap(mid as int, (lo + PAGE_SIZE_4K) as int);
        }
        if can_access(mid) {
            lo = mid;
        } else {
            assert forall|s: usize|
                mid - PAGE_SIZE_4K < s <= max_size && (s % PAGE_SIZE_4K == 0
                    || s == max_size) implies refuted(*can_access, s) by {
                if s % PAGE_SIZE_4K == 0 {
                    lemma_aligned_gap(s as int, mid as int);
                }
                assert(mid <= s);
                assert(can_access.ensures((mid,), false));
            }
            hi = mid - PAGE_SIZE_4K;
        }
    }
    assert forall|s: usize|
        lo < s <= max_size && (s % PAGE_SIZE_4K == 0 || s == max_size) implies refuted(
        *can_access,
        s,
    ) by {
        if s % PAGE_SIZE_4K == 0 && lo % PAGE_SIZE_4K == 0 {
            lemma_aligned_gap(s as int, (lo + PAGE_SIZE_4K) as int);
        }
    }
    lo
}

/// For an address space whose query answers consistently with a predicate
/// `accessible`, and whose accessible sizes form a prefix (a size is
/// accessible whenever a larger one is), every refuted size is inaccessible:
/// so the result of [`max_contiguous_valid`] is the largest accessible page
/// multiple up to `max_size`.
pub proof fn lemma_refuted_is_inaccessible<A: Fn(usize) -> bool>(
    can_access: A,
    accessible: spec_fn(usize) -> bool,
    s: usize,
)
    requires
        forall|t: usize, b: bool| #[trigger] can_access.ensures((t,), b) ==> b == accessible(t),
        forall|t: usize, u: usize| t <= u && #[trigger] accessible(u) ==> #[trigger] accessible(t),
        refuted(can_access, s),
    ensures
        !accessible(s),
{
    let t = choose|t: usize| t <= s && #[trigger] can_access.ensures((t,), false);
    assert(!accessible(t));
}

// ── Null-terminated arrays ───────────────────────────────────────────

/// Sum of validated window sizes.
pub open spec fn total(sizes: Seq<usize>) -> int
    decreases sizes.len(),
{
    if sizes.len() == 0 {
        0
    } else {
        total(sizes.drop_last()) + sizes.last()
    }
}

/// `sizes` is a chain of non-empty windows, each validated by `valid_from`
/// when asked at the end of the previous one, starting at `from`.
pub open spec fn validated_chain<V: Fn(usize) -> usize>(
    valid_from: V,
    from: int,
    sizes: Seq<usize>,
) -> bool {
    forall|k: int|
        #![trigger sizes[k]]
        0 <= k < sizes.len() ==> {
            &&& sizes[k] > 0
            &&& from + total(sizes.take(k)) <= usize::MAX
            &&& valid_from.ensures(((from + total(sizes.take(k))) as usize,), sizes[k])
        }
}

/// Address of element `i` of an array of `elem_size`-byte elements at
/// `start`.
pub open spec fn elem_addr(start: usize, elem_size: usize, i: int) -> int {
    start + i * elem_size
}

/// The scan of elements reported non-zero runs past the top of the address
/// space.
pub open spec fn scan_overflows<Z: Fn(usize) -> bool>(
    is_zero_at: Z,
    start: usize,
    elem_size: usize,
) -> bool {
    exists|n: nat|
        elem_addr(start, elem_size, n as int) > usize::MAX && forall|j: nat|
            j < n ==> #[trigger] is_zero_at.ensures(
                (elem_addr(start, elem_size, j as int) as usize,),
                false,
            )
}

/// Why a null-terminated scan failed.
#[derive(Debug, Clone, Copy, PartialEq, Eq)]
pub enum AccessError {
    /// Misaligned, or runs into memory the address space does not allow.
    BadAddress,
}

proof fn lemma_chain_push<V: Fn(usize) -> usize>(
    valid_from: V,
    from: int,
    sizes: Seq<usize>,
    valid: usize,
)
    requires
        validated_chain(valid_from, from, sizes),
        valid > 0,
        from + total(sizes) <= usize::MAX,
        valid_from.ensures(((from + total(sizes)) as usize,), valid),
    ensures
        validated_chain(valid_from, from, sizes.push(valid)),
        total(sizes.push(valid)) == total(sizes) + valid,
{
    let s2 = sizes.push(valid);
    assert(s2.drop_last() =~= sizes);
    assert forall|k: int| 0 <= k < s2.len() implies {
        &&& #[trigger] s2[k] > 0
        &&& from + total(s2.take(k)) <= usize::MAX
        &&& valid_from.ensures(((from + total(s2.take(k))) as usize,), s2[k])
    } by {
        if k < sizes.len() {
            assert(s2.take(k) =~= sizes.take(k));
            assert(s2[k] == sizes[k]);
            assert(valid_from.ensures(((from + total(sizes.take(k))) as usize,), sizes[k]));
        } else {
            assert(s2.take(k) =~= sizes);
            assert(s2[k] == valid);
        }
    }
}

/// Length (in elements) of the null-terminated array at `start`, whose
/// elements are `elem_size` bytes and must be aligned to `align`.
///
/// Before an element is read (`is_zero_at` with its address), the memory up
/// to and including it is validated in batches: `valid_from(boundary)` is the
/// contiguous accessible size from a page-aligned `boundary` (as found by
/// [`max_contiguous_valid`]); zero means nothing more is accessible. The
/// scan fails with [`AccessError::BadAddress`] when `start` is misaligned,
/// when validation stops before the terminator, or when it would run past
/// the top of the address space.
pub fn null_terminated_len<Z: Fn(usize) -> bool, V: Fn(usize) -> usize>(
    start: usize,
    elem_size: usize,
    align: usize,
    is_zero_at: &Z,
    valid_from: &V,
) -> (r: Result<usize, AccessError>)
    requires
        align >= 1,
        elem_size >= 1,
        forall|a: usize| is_zero_at.requires((a,)),
        forall|b: usize| valid_from.requires((b,)),
    ensures
        misaligned(start, align) ==> r is Err,
        r matches Ok(len) ==> {
            &&& !misaligned(start, align)
            &&& elem_addr(start, elem_size, len as int) <= usize::MAX
            &&& is_zero_at.ensures((elem_addr(start, elem_size, len as int) as usize,), true)
            &&& forall|j: int|
                0 <= j < len ==> #[trigger] is_zero_at.ensures(
                    (elem_addr(start, elem_size, j) as usize,),
                    false,
                )
            &&& exists|sizes: Seq<usize>|
                validated_chain(*valid_from, align_down_spec(start as int), sizes)
                    && elem_addr(start, elem_size, len as int) < align_down_spec(start as int)
                    + total(sizes)
        },
        r is Err ==> misaligned(start, align) || (exists|b: usize, n: usize|
            #[trigger] valid_from.ensures((b,), n) && (n == 0 || b + n > usize::MAX))
            || scan_overflows(*is_zero_at, start, elem_size),
{
    if start & (align - 1) != 0 {
        return Err(AccessError::BadAddress);
    }
    let from = align_down_4k(start);
    let mut boundary = from;
    let ghost mut sizes: Seq<usize> = Seq::empty();
    let mut len: usize = 0;
    loop
        invariant
            !misaligned(start, align),
            from == align_down_spec(start as int),
            from <= start,
            boundary == from + total(sizes),
            validated_chain(*valid_from, from as int, sizes),
            elem_size >= 1,
            forall|j: int|
                0 <= j < len ==> #[trigger] is_zero_at.ensures(
                    (elem_addr(start, elem_size, j) as usize,),
                    false,
                ),
            forall|a: usize| is_zero_at.requires((a,)),
            forall|b: usize| valid_from.requires((b,)),
        decreases usize::MAX - len,
    {
        let offset = match len.checked_mul(elem_size) {
            Some(o) => o,
            None => {
                proof {
                    let n: nat = len as nat;
                    assert(elem_addr(start, elem_size, n as int) > usize::MAX);
                    assert forall|j: nat| j < n implies #[trigger] is_zero_at.ensures(
                        (elem_addr(start, elem_size, j as int) as usize,),
                        false,
                    ) by {}
                    assert(scan_overflows(*is_zero_at, start, elem_size));
                }
                return Err(AccessError::BadAddress);
            },
        };
        let ptr = match start.checked_add(offset) {
            Some(p) => p,
            None => {
                proof {
                    let n: nat = len as nat;
                    assert(elem_addr(start, elem_size, n as int) > usize::MAX);
                    assert forall|j: nat| j < n implies #[trigger] is_zero_at.ensures(
                        (elem_addr(start, elem_size, j as int) as usize,),
                        false,
                    ) by {}
                    assert(scan_overflows(*is_zero_at, start, elem_size));
                }
                return Err(AccessError::BadAddress);
            },
        };
        while ptr >= boundary
            invariant
                from == align_down_spec(start as int),
                boundary == from + total(sizes),
                validated_chain(*valid_from, from as int, sizes),
                forall|b: usize| valid_from.requires((b,)),
            decreases usize::MAX - boundary,
        {
            let valid = valid_from(boundary);
            if valid == 0 || boundary > usize::MAX - valid {
                return Err(AccessError::BadAddress);
            }
            proof {
                lemma_chain_push(*valid_from, from as int, sizes, valid);
                sizes = sizes.push(valid);
            }
            boundary = boundary + valid;
        }
        if is_zero_at(ptr) {
            return Ok(len);
        }
        assert(is_zero_at.ensures((elem_addr(start, elem_size, len as int) as usize,), false));
        if len == usize::MAX {
            proof {
                let n: nat = (len + 1) as nat;
                assert(elem_addr(start, elem_size, n as int) > usize::MAX) by (nonlinear_arith)
                    requires
                        elem_size >= 1,
                        n == usize::MAX + 1,
                        start >= 0,
                ;
                assert forall|j: nat| j < n implies #[trigger] is_zero_at.ensures(
                    (elem_addr(start, elem_size, j as int) as usize,),
                    false,
                ) by {}
                assert(scan_overflows(*is_zero_at, start, elem_size));
            }
            return Err(AccessError::BadAddress);
        }
        len = len + 1;
    }
}

/// Errors of a user-memory access check.
#[derive(Debug, Clone, Copy, PartialEq, Eq)]
pub enum VmError {
    /// The range is not inside user space.
    AccessDenied,
}

/// Whether `start .. start + len` lies in the user space
/// `user_base .. user_base + user_size`.
pub open spec fn in_user_space(user_base: usize, user_size: usize, start: usize, len: usize) -> bool {
    &&& user_base <= start < user_base + user_size
    &&& user_base + user_size - start >= len
}

/// Briefly check that `start .. start + len` is user memory.
pub fn check_access(user_base: usize, user_size: usize, start: usize, len: usize) -> (r: Result<
    (),
    VmError,
>)
    requires
        user_base + user_size <= usize::MAX,
    ensures
        r is Ok <==> in_user_space(user_base, user_size, start, len),
        r is Err ==> r == Err::<(), VmError>(VmError::AccessDenied),
{
    let user_end = user_base + user_size;
    let ok = user_base <= start && start < user_end && user_end - start >= len;
    if !ok {
        Err(VmError::AccessDenied)
    } else {
        Ok(())
    }
}

} // verus!
