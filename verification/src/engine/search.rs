use vstd::prelude::*;

verus! {

/// The values that `mapping` gives never decrease over `[start, end)`.
pub open spec fn sorted_over<F: Fn(usize) -> u32>(mapping: F, start: usize, end: usize) -> bool {
    forall|i: usize, j: usize, vi: u32, vj: u32|
        start <= i <= j < end && #[trigger] mapping.ensures((i,), vi) && #[trigger] mapping.ensures(
            (j,),
            vj,
        ) ==> vi <= vj
}

/// The index of the first element of `[start, end)` whose value under
/// `mapping` is not less than `x`, or `end` if there is none. The values are
/// expected not to decrease over the range; where they do, the result is
/// still within the range.
pub fn lower_bound_with<F: Fn(usize) -> u32>(start: usize, end: usize, mapping: F, x: u32) -> (r:
    usize)
    requires
        start <= end,
        forall|i: usize| start <= i < end ==> mapping.requires((i,)),
    ensures
        start <= r <= end,
        sorted_over(mapping, start, end) ==> {
            &&& forall|i: usize, v: u32|
                start <= i < r && mapping.ensures((i,), v) ==> v < x
            &&& forall|i: usize, v: u32|
                r <= i < end && mapping.ensures((i,), v) ==> v >= x
            &&& r > start ==> exists|i: usize, v: u32|
                i + 1 == r && #[trigger] mapping.ensures((i,), v) && v < x
            &&& r < end ==> exists|v: u32| #[trigger] mapping.ensures((r,), v) && v >= x
        },
{
    let mut size = end - start;
    if size == 0 {
        return start;
    }
    let mut base = start;
    while size > 1
        invariant
            start <= base,
            size >= 1,
            base + size <= end,
            forall|i: usize| start <= i < end ==> mapping.requires((i,)),
            sorted_over(mapping, start, end) ==> {
                &&& forall|i: usize, v: u32|
                    start <= i <= base && base > start && mapping.ensures((i,), v) ==> v < x
                &&& forall|i: usize, v: u32|
                    base + size <= i < end && mapping.ensures((i,), v) ==> v >= x
                &&& base > start ==> exists|v: u32| #[trigger] mapping.ensures((base,), v) && v < x
                &&& base + size < end ==> exists|i: usize, v: u32|
                    (i == base + size || i + 1 == base + size) && #[trigger] mapping.ensures(
                        (i,),
                        v,
                    ) && v >= x
            },
        decreases size,
    {
        let half = size / 2;
        let mid = base + half;
        let v = mapping(mid);
        if v < x {
            base = mid;
        }
        size -= half;
        proof {
            if sorted_over(mapping, start, end) && base + size < end && !(v < x) {
                assert(mapping.ensures((mid,), v) && (mid == base + size || mid + 1 == base
                    + size));
            }
        }
    }
    let vb = mapping(base);
    if vb < x {
        proof {
            if sorted_over(mapping, start, end) && base + 1 < end {
                let (i, v) = choose|i: usize, v: u32|
                    (i == base + size || i + 1 == base + size) && #[trigger] mapping.ensures(
                        (i,),
                        v,
                    ) && v >= x;
                if i + 1 == base + size {
                    assert(mapping.ensures((base,), vb) && mapping.ensures((base,), v));
                }
            }
        }
        base + 1
    } else {
        base
    }
}

/// The range of the elements of `[start, end)` that follow the lower bound
/// of `x` and whose value under `mapping` equals `x`. Where the values never
/// decrease over the range, these are all the elements with the value `x`.
pub fn equal_range_with<F: Fn(usize) -> u32>(start: usize, end: usize, mapping: F, x: u32) -> (r: (
    usize,
    usize,
))
    requires
        start <= end,
        forall|i: usize| start <= i < end ==> mapping.requires((i,)),
    ensures
        start <= r.0 <= r.1 <= end,
        forall|i: usize| r.0 <= i < r.1 ==> mapping.ensures((i,), x),
        r.1 < end ==> exists|v: u32| #[trigger] mapping.ensures((r.1,), v) && v != x,
        sorted_over(mapping, start, end) ==> {
            &&& forall|i: usize, v: u32|
                start <= i < r.0 && mapping.ensures((i,), v) ==> v < x
            &&& r.0 > start ==> exists|i: usize, v: u32|
                i + 1 == r.0 && #[trigger] mapping.ensures((i,), v) && v < x
            &&& forall|i: usize, v: u32|
                r.0 <= i < r.1 && mapping.ensures((i,), v) ==> v == x
            &&& forall|i: usize, v: u32|
                r.1 <= i < end && mapping.ensures((i,), v) ==> v > x
            &&& r.1 < end ==> exists|v: u32| #[trigger] mapping.ensures((r.1,), v) && v > x
        },
{
    let lower = lower_bound_with(start, end, &mapping, x);
    let mut upper = lower;
    let mut more = upper < end;
    let ghost mut stop: u32 = 0;
    while more
        invariant
            start <= lower <= upper <= end,
            forall|i: usize| start <= i < end ==> mapping.requires((i,)),
            forall|i: usize| lower <= i < upper ==> mapping.ensures((i,), x),
            !more && upper < end ==> mapping.ensures((upper,), stop) && stop != x,
            more ==> upper < end,
            sorted_over(mapping, start, end) ==> {
                &&& forall|i: usize, v: u32|
                    start <= i < lower && mapping.ensures((i,), v) ==> v < x
                &&& forall|i: usize, v: u32|
                    lower <= i < end && mapping.ensures((i,), v) ==> v >= x
                &&& lower > start ==> exists|i: usize, v: u32|
                    i + 1 == lower && #[trigger] mapping.ensures((i,), v) && v < x
            },
        decreases end - upper + (if more { 1int } else { 0int }),
    {
        let v = mapping(upper);
        if v == x {
            upper += 1;
            more = upper < end;
        } else {
            proof {
                stop = v;
            }
            more = false;
        }
    }
    proof {
        if sorted_over(mapping, start, end) {
            assert forall|i: usize, v: u32|
                lower <= i < upper && mapping.ensures((i,), v) implies v == x by {
                assert(mapping.ensures((i,), x));
            }
            if upper < end {
                assert(mapping.ensures((upper,), stop));
                assert(stop > x);
                assert forall|i: usize, v: u32|
                    upper <= i < end && mapping.ensures((i,), v) implies v > x by {
                    assert(mapping.ensures((upper,), stop));
                }
            }
        }
    }
    (lower, upper)
}

} // verus!
