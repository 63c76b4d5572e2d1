//! Sizes of the shared-memory regions, which are mapped a whole number of
//! pages at a time.
use vstd::prelude::*;

verus! {

/// The smallest multiple of `page_size` that holds `object_size` bytes,
/// computed as `page_size * ((object_size + page_size - 1) / page_size)`.
pub fn page_aligned_size(object_size: isize, page_size: isize) -> (size: isize)
    requires
        page_size > 0,
        object_size >= 0,
        object_size + page_size <= isize::MAX,
    ensures
        size == page_size * ((object_size + page_size - 1) / (page_size as int)),
        (size as int) % (page_size as int) == 0,
        object_size <= size < object_size + page_size,
{
    let pages = (object_size + page_size - 1) / page_size;
    proof {
        let s = object_size as int;
        let p = page_size as int;
        let q = pages as int;
        assert(q * p <= s + p - 1 < q * p + p) by (nonlinear_arith)
            requires
                q == (s + p - 1) / p,
                p > 0,
                s >= 0,
        ;
        assert((p * q) % p == 0) by (nonlinear_arith)
            requires
                p > 0,
                q >= 0,
        ;
        assert(q >= 0) by (nonlinear_arith)
            requires
                q == (s + p - 1) / p,
                p > 0,
                s >= 0,
        ;
        assert(p * q <= s + p - 1) by (nonlinear_arith)
            requires
                q * p <= s + p - 1,
        ;
    }
    page_size * pages
}

} // verus!
