//! The C library's `qsort` as the kernel provides it to linked C code: an
//! in-place bubble sort of `nmemb` records of `size` bytes under a
//! caller-supplied comparator.

use vstd::prelude::*;

verus! {

/// Record `i` of a buffer of `size`-byte records.
pub open spec fn record(s: Seq<u8>, size: int, i: int) -> Seq<u8> {
    s.subrange(i * size, i * size + size)
}

/// The first `nmemb` records of a buffer.
pub open spec fn records(s: Seq<u8>, nmemb: int, size: int) -> Seq<Seq<u8>> {
    Seq::new(nmemb as nat, |i: int| record(s, size, i))
}

/// `order` orders records as a total preorder: `order(a, b) <= 0` means `a`
/// may precede `b`.
pub open spec fn total_preorder(order: spec_fn(Seq<u8>, Seq<u8>) -> int) -> bool {
    &&& forall|a: Seq<u8>, b: Seq<u8>| #[trigger] order(a, b) > 0 ==> order(b, a) <= 0
    &&& forall|a: Seq<u8>, b: Seq<u8>, c: Seq<u8>|
        #[trigger] order(a, b) <= 0 && #[trigger] order(b, c) <= 0 ==> order(a, c) <= 0
}

/// The comparator's answers agree with `order`.
pub open spec fn agrees<C: Fn(&[u8], &[u8]) -> i32>(
    compar: C,
    order: spec_fn(Seq<u8>, Seq<u8>) -> int,
) -> bool {
    forall|a: &[u8], b: &[u8], r: i32| #[trigger] compar.ensures((a, b), r) ==> r == order(a@, b@)
}

/// The comparator is a consistent total preorder `order`.
pub open spec fn consistent<C: Fn(&[u8], &[u8]) -> i32>(
    compar: C,
    order: spec_fn(Seq<u8>, Seq<u8>) -> int,
) -> bool {
    agrees(compar, order) && total_preorder(order)
}

/// Records `lo .. hi` are in order.
pub open spec fn sorted_between(
    rs: Seq<Seq<u8>>,
    order: spec_fn(Seq<u8>, Seq<u8>) -> int,
    lo: int,
    hi: int,
) -> bool {
    forall|i: int, j: int| lo <= i < j < hi ==> #[trigger] order(rs[i], rs[j]) <= 0
}

/// Every record up to `end` may precede every record after it.
pub open spec fn prefix_le_suffix(
    rs: Seq<Seq<u8>>,
    order: spec_fn(Seq<u8>, Seq<u8>) -> int,
    end: int,
) -> bool {
    forall|k: int, j: int| 0 <= k <= end < j < rs.len() ==> #[trigger] order(rs[k], rs[j]) <= 0
}

/// Record `idx` may follow every record before it.
pub open spec fn max_at(rs: Seq<Seq<u8>>, order: spec_fn(Seq<u8>, Seq<u8>) -> int, idx: int) -> bool {
    forall|k: int| 0 <= k < idx ==> #[trigger] order(rs[k], rs[idx]) <= 0
}

/// `new` is `old` with the `len` bytes at `left` and at `right` exchanged.
pub open spec fn swapped(old: Seq<u8>, new: Seq<u8>, left: int, right: int, len: int) -> bool {
    &&& new.len() == old.len()
    &&& forall|p: int|
        0 <= p < old.len() ==> #[trigger] new[p] == if left <= p < left + len {
            old[p - left + right]
        } else if right <= p < right + len {
            old[p - right + left]
        } else {
            old[p]
        }
}

/// Exchange the `len` bytes at `left` with those at `right`.
fn swap_bytes(data: &mut [u8], left: usize, right: usize, len: usize)
    requires
        left + len <= right,
        right + len <= old(data)@.len(),
    ensures
        swapped(old(data)@, final(data)@, left as int, right as int, len as int),
{
    let mut offset: usize = 0;
    while offset < len
        invariant
            left + len <= right,
            right + len <= old(data)@.len(),
            offset <= len,
            data@.len() == old(data)@.len(),
            forall|p: int|
                0 <= p < old(data)@.len() ==> #[trigger] data@[p] == if left <= p < left + offset {
                    old(data)@[p - left + right]
                } else if right <= p < right + offset {
                    old(data)@[p - right + left]
                } else {
                    old(data)@[p]
                },
        decreases len - offset,
    {
        let tmp = data[left + offset];
        let r = data[right + offset];
        data[left + offset] = r;
        data[right + offset] = tmp;
        offset = offset + 1;
    }
}

proof fn lemma_record_bounds(k: int, n: int, size: int)
    requires
        0 <= k < n,
        size >= 0,
    ensures
        0 <= k * size,
        k * size + size <= n * size,
        (k + 1) * size == k * size + size,
{
    assert(0 <= k * size) by (nonlinear_arith)
        requires
            0 <= k,
            size >= 0,
    ;
    assert(k * size + size <= n * size) by (nonlinear_arith)
        requires
            0 <= k < n,
            size >= 0,
    ;
    assert((k + 1) * size == k * size + size) by (nonlinear_arith);
}

proof fn lemma_record_order(k: int, i: int, size: int)
    requires
        0 <= k < i,
        size >= 0,
    ensures
        k * size + size <= i * size,
{
    assert(k * size + size <= i * size) by (nonlinear_arith)
        requires
            0 <= k < i,
            size >= 0,
    ;
}

/// Swapping the bytes of adjacent records `i` and `i + 1` swaps them in
/// the record view and leaves every other byte as it was.
proof fn lemma_swap_records(old: Seq<u8>, new: Seq<u8>, n: int, size: int, i: int)
    requires
        0 <= i,
        i + 1 < n,
        size > 0,
        n * size <= old.len(),
        swapped(old, new, i * size, i * size + size, size),
    ensures
        records(new, n, size) == records(old, n, size).update(i, record(old, size, i + 1)).update(
            i + 1,
            record(old, size, i),
        ),
        new.subrange(n * size, new.len() as int) == old.subrange(n * size, old.len() as int),
{
    let ro = records(old, n, size);
    let rn = records(new, n, size);
    let expect = ro.update(i, record(old, size, i + 1)).update(i + 1, record(old, size, i));
    lemma_record_bounds(i + 1, n, size);
    lemma_record_bounds(i, n, size);
    assert forall|k: int| 0 <= k < n implies #[trigger] rn[k] == expect[k] by {
        lemma_record_bounds(k, n, size);
        if k == i {
            assert(record(new, size, k) =~= record(old, size, i + 1));
        } else if k == i + 1 {
            assert(record(new, size, k) =~= record(old, size, i));
        } else if k < i {
            lemma_record_order(k, i, size);
            assert(record(new, size, k) =~= record(old, size, k));
        } else {
            lemma_record_order(i + 1, k, size);
            assert(record(new, size, k) =~= record(old, size, k));
        }
    }
    assert(rn =~= expect);
    lemma_record_bounds(n - 1, n, size);
    assert(new.subrange(n * size, new.len() as int) =~= old.subrange(n * size, old.len() as int));
}

proof fn lemma_swap_keeps_outer(
    rs: Seq<Seq<u8>>,
    order: spec_fn(Seq<u8>, Seq<u8>) -> int,
    end: int,
    idx: int,
)
    requires
        0 <= idx,
        idx + 1 <= end < rs.len(),
        sorted_between(rs, order, end + 1, rs.len() as int),
        prefix_le_suffix(rs, order, end),
    ensures
        ({
            let rs2 = rs.update(idx, rs[idx + 1]).update(idx + 1, rs[idx]);
            sorted_between(rs2, order, end + 1, rs2.len() as int) && prefix_le_suffix(rs2, order, end)
        }),
{
    let rs2 = rs.update(idx, rs[idx + 1]).update(idx + 1, rs[idx]);
    assert forall|i: int, j: int| end + 1 <= i < j < rs2.len() implies #[trigger] order(
        rs2[i],
        rs2[j],
    ) <= 0 by {
        assert(rs2[i] == rs[i] && rs2[j] == rs[j]);
        assert(order(rs[i], rs[j]) <= 0);
    }
    assert forall|k: int, j: int| 0 <= k <= end < j < rs2.len() implies #[trigger] order(
        rs2[k],
        rs2[j],
    ) <= 0 by {
        assert(rs2[j] == rs[j]);
        if k == idx {
            assert(order(rs[idx + 1], rs[j]) <= 0);
        } else if k == idx + 1 {
            assert(order(rs[idx], rs[j]) <= 0);
        } else {
            assert(order(rs[k], rs[j]) <= 0);
        }
    }
}

proof fn lemma_bubble_step(rs: Seq<Seq<u8>>, order: spec_fn(Seq<u8>, Seq<u8>) -> int, idx: int, res: int)
    requires
        total_preorder(order),
        0 <= idx,
        idx + 1 < rs.len(),
        max_at(rs, order, idx),
        res == order(rs[idx], rs[idx + 1]),
    ensures
        res > 0 ==> max_at(rs.update(idx, rs[idx + 1]).update(idx + 1, rs[idx]), order, idx + 1),
        res <= 0 ==> max_at(rs, order, idx + 1),
{
    if res > 0 {
        let rs2 = rs.update(idx, rs[idx + 1]).update(idx + 1, rs[idx]);
        assert forall|k: int| 0 <= k < idx + 1 implies #[trigger] order(rs2[k], rs2[idx + 1]) <= 0 by {
            if k == idx {
                assert(order(rs[idx], rs[idx + 1]) > 0);
                assert(order(rs[idx + 1], rs[idx]) <= 0);
            } else {
                assert(order(rs[k], rs[idx]) <= 0);
            }
        }
    } else {
        assert forall|k: int| 0 <= k < idx + 1 implies #[trigger] order(rs[k], rs[idx + 1]) <= 0 by {
            if k < idx {
                assert(order(rs[k], rs[idx]) <= 0);
                assert(order(rs[idx], rs[idx + 1]) <= 0);
            }
        }
    }
}

proof fn lemma_outer_step(rs: Seq<Seq<u8>>, order: spec_fn(Seq<u8>, Seq<u8>) -> int, end: int)
    requires
        0 < end < rs.len(),
        sorted_between(rs, order, end + 1, rs.len() as int),
        prefix_le_suffix(rs, order, end),
        max_at(rs, order, end),
    ensures
        sorted_between(rs, order, end, rs.len() as int),
        prefix_le_suffix(rs, order, end - 1),
{
    assert forall|i: int, j: int| end <= i < j < rs.len() implies #[trigger] order(rs[i], rs[j])
        <= 0 by {
        if i == end {
            assert(order(rs[end], rs[j]) <= 0);
        } else {
            assert(order(rs[i], rs[j]) <= 0);
        }
    }
    assert forall|k: int, j: int| 0 <= k <= end - 1 < j < rs.len() implies #[trigger] order(
        rs[k],
        rs[j],
    ) <= 0 by {
        if j == end {
            assert(order(rs[k], rs[end]) <= 0);
        } else {
            assert(order(rs[k], rs[j]) <= 0);
        }
    }
}

proof fn lemma_swap_multiset(rs: Seq<Seq<u8>>, i: int)
    requires
        0 <= i,
        i + 1 < rs.len(),
    ensures
        rs.update(i, rs[i + 1]).update(i + 1, rs[i]).to_multiset() == rs.to_multiset(),
{
    broadcast use vstd::seq_lib::to_multiset_update;
    broadcast use vstd::seq_lib::to_multiset_contains;
    broadcast use vstd::multiset::group_multiset_axioms;

    let m = rs.to_multiset();
    assert(rs.contains(rs[i]));
    assert(rs.contains(rs[i + 1]));
    assert(m.count(rs[i]) > 0);
    assert(m.count(rs[i + 1]) > 0);
    let r1 = rs.update(i, rs[i + 1]);
    assert(r1[i + 1] == rs[i + 1]);
    assert(r1.to_multiset() == rs.to_multiset().insert(rs[i + 1]).remove(rs[i]));
    let r2 = r1.update(i + 1, rs[i]);
    assert(r2.to_multiset() == r1.to_multiset().insert(rs[i]).remove(rs[i + 1]));
    assert(r2.to_multiset() =~= rs.to_multiset());
}

/// Sort the first `nmemb` records of `size` bytes of `base` in place, in
/// the order `compar` gives (a positive answer means the first record goes
/// after the second). Without a comparator, or with fewer than two records
/// or zero-sized records, nothing changes.
///
/// The records are always rearranged, never altered, and the bytes after
/// them are untouched; when the comparator answers consistently with a
/// total preorder, the records come out sorted by it.
pub fn qsort<C: Fn(&[u8], &[u8]) -> i32>(
    base: &mut [u8],
    nmemb: usize,
    size: usize,
    compar: Option<&C>,
)
    requires
        nmemb * size <= old(base)@.len(),
        compar matches Some(c) ==> forall|a: &[u8], b: &[u8]| c.requires((a, b)),
    ensures
        (compar is None || nmemb < 2 || size == 0) ==> final(base)@ == old(base)@,
        final(base)@.len() == old(base)@.len(),
        records(final(base)@, nmemb as int, size as int).to_multiset() == records(
            old(base)@,
            nmemb as int,
            size as int,
        ).to_multiset(),
        final(base)@.subrange(nmemb * size, old(base)@.len() as int) == old(base)@.subrange(
            nmemb * size,
            old(base)@.len() as int,
        ),
        compar matches Some(c) ==> forall|order: spec_fn(Seq<u8>, Seq<u8>) -> int|
            #[trigger] consistent(*c, order) ==> sorted_between(
                records(final(base)@, nmemb as int, size as int),
                order,
                0,
                nmemb as int,
            ),
{
    let compar = match compar {
        Some(c) => c,
        None => {
            return;
        },
    };
    if nmemb < 2 || size == 0 {
        proof {
            assert(base@.subrange(nmemb * size, base@.len() as int) =~= old(base)@.subrange(
                nmemb * size,
                old(base)@.len() as int,
            ));
            if nmemb < 2 || size == 0 {
                assert forall|order: spec_fn(Seq<u8>, Seq<u8>) -> int|
                    #[trigger] consistent(*compar, order) implies sorted_between(
                    records(base@, nmemb as int, size as int),
                    order,
                    0,
                    nmemb as int,
                ) by {
                    if size == 0 && nmemb >= 2 {
                        let rs = records(base@, nmemb as int, size as int);
                        assert forall|i: int, j: int| 0 <= i < j < nmemb implies #[trigger] order(
                            rs[i],
                            rs[j],
                        ) <= 0 by {
                            assert(rs[i] =~= rs[j]);
                            assert(order(rs[i], rs[i]) <= 0 || order(rs[i], rs[i]) > 0);
                        }
                    }
                }
            }
        }
        return;
    }
    let ghost n = nmemb as int;
    let ghost sz = size as int;
    let total_len = base.len();
    let mut end: usize = nmemb - 1;
    while end > 0
        invariant
            base@.len() == total_len,
            n == nmemb,
            sz == size,
            2 <= nmemb,
            size > 0,
            end < nmemb,
            nmemb * size <= base@.len(),
            base@.len() == old(base)@.len(),
            forall|a: &[u8], b: &[u8]| compar.requires((a, b)),
            records(base@, n, sz).to_multiset() == records(old(base)@, n, sz).to_multiset(),
            base@.subrange(n * sz, base@.len() as int) == old(base)@.subrange(
                n * sz,
                old(base)@.len() as int,
            ),
            forall|order: spec_fn(Seq<u8>, Seq<u8>) -> int|
                #[trigger] consistent(*compar, order) ==> sorted_between(
                    records(base@, n, sz),
                    order,
                    end + 1,
                    n,
                ) && prefix_le_suffix(records(base@, n, sz), order, end as int),
        decreases end,
    {
        let mut idx: usize = 0;
        while idx < end
            invariant
                base@.len() == total_len,
                n == nmemb,
                sz == size,
                2 <= nmemb,
                size > 0,
                0 < end < nmemb,
                idx <= end,
                nmemb * size <= base@.len(),
                base@.len() == old(base)@.len(),
                forall|a: &[u8], b: &[u8]| compar.requires((a, b)),
                records(base@, n, sz).to_multiset() == records(old(base)@, n, sz).to_multiset(),
                base@.subrange(n * sz, base@.len() as int) == old(base)@.subrange(
                    n * sz,
                    old(base)@.len() as int,
                ),
                forall|order: spec_fn(Seq<u8>, Seq<u8>) -> int|
                    #[trigger] consistent(*compar, order) ==> sorted_between(
                        records(base@, n, sz),
                        order,
                        end + 1,
                        n,
                    ) && prefix_le_suffix(records(base@, n, sz), order, end as int) && max_at(
                        records(base@, n, sz),
                        order,
                        idx as int,
                    ),
            decreases end - idx,
        {
            proof {
                lemma_record_bounds(idx as int, n, sz);
                lemma_record_bounds(idx as int + 1, n, sz);
            }
            let left = idx * size;
            let right = left + size;
            let res = {
                let view: &[u8] = base;
                let a = vstd::slice::slice_subrange(view, left, left + size);
                let b = vstd::slice::slice_subrange(view, right, right + size);
                let r = compar(a, b);
                proof {
                    assert(a@ == record(base@, sz, idx as int));
                    assert(b@ == record(base@, sz, idx as int + 1));
                    assert(compar.ensures((a, b), r));
                }
                r
            };
            let ghost rs = records(base@, n, sz);
            proof {
                assert(rs[idx as int] == record(base@, sz, idx as int));
                assert(rs[idx as int + 1] == record(base@, sz, idx as int + 1));
                assert forall|order: spec_fn(Seq<u8>, Seq<u8>) -> int|
                    #[trigger] consistent(*compar, order) implies res == order(
                    rs[idx as int],
                    rs[idx as int + 1],
                ) by {}
            }
            if res > 0 {
                let ghost before = base@;
                swap_bytes(base, left, right, size);
                proof {
                    lemma_swap_records(before, base@, n, sz, idx as int);
                    lemma_swap_multiset(rs, idx as int);
                    assert(records(base@, n, sz) == rs.update(idx as int, rs[idx as int + 1]).update(
                        idx as int + 1,
                        rs[idx as int],
                    ));
                    assert forall|order: spec_fn(Seq<u8>, Seq<u8>) -> int|
                        #[trigger] consistent(*compar, order) implies sorted_between(
                        records(base@, n, sz),
                        order,
                        end + 1,
                        n,
                    ) && prefix_le_suffix(records(base@, n, sz), order, end as int) && max_at(
                        records(base@, n, sz),
                        order,
                        idx as int + 1,
                    ) by {
                        lemma_swap_keeps_outer(rs, order, end as int, idx as int);
                        lemma_bubble_step(rs, order, idx as int, res as int);
                    }
                }
            } else {
                proof {
                    assert forall|order: spec_fn(Seq<u8>, Seq<u8>) -> int|
                        #[trigger] consistent(*compar, order) implies max_at(
                        records(base@, n, sz),
                        order,
                        idx as int + 1,
                    ) by {
                        lemma_bubble_step(rs, order, idx as int, res as int);
                    }
                }
            }
            idx = idx + 1;
        }
        proof {
            assert forall|order: spec_fn(Seq<u8>, Seq<u8>) -> int|
                #[trigger] consistent(*compar, order) implies sorted_between(
                records(base@, n, sz),
                order,
                end as int,
                n,
            ) && prefix_le_suffix(records(base@, n, sz), order, end - 1) by {
                lemma_outer_step(records(base@, n, sz), order, end as int);
            }
        }
        end = end - 1;
    }
    proof {
        assert forall|order: spec_fn(Seq<u8>, Seq<u8>) -> int|
            #[trigger] consistent(*compar, order) implies sorted_between(
            records(base@, n, sz),
            order,
            0,
            n,
        ) by {
            let rs = records(base@, n, sz);
            assert forall|i: int, j: int| 0 <= i < j < n implies #[trigger] order(rs[i], rs[j])
                <= 0 by {
                if i == 0 {
                    assert(order(rs[0], rs[j]) <= 0);
                } else {
                    assert(order(rs[i], rs[j]) <= 0);
                }
            }
        }
    }
}

} // verus!
