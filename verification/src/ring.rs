//! The arithmetic of a byte ring: `n` slots, a read position and a write
//! position, with one slot always left empty so that equal positions mean
//! "nothing stored". Everything here is plain data; the shared-memory
//! producer/consumer and the single-owner `RingBuffer` are both built on it.
use vstd::arithmetic::div_mod::{lemma_mod_sub_multiples_vanish, lemma_small_mod};
use vstd::prelude::*;

verus! {

/// Number of bytes stored in a ring of `n` slots read at `r` and written at `w`.
pub open spec fn ring_len(r: int, w: int, n: int) -> int {
    if w >= r {
        w - r
    } else {
        n - r + w
    }
}

/// Number of bytes that can still be stored (one slot is never used).
pub open spec fn ring_free(r: int, w: int, n: int) -> int {
    n - 1 - ring_len(r, w, n)
}

/// A position `p` with `0 <= p < 2n` folded back into `[0, n)`.
pub open spec fn wrap(p: int, n: int) -> int {
    if p < n {
        p
    } else {
        p - n
    }
}

/// The `count` bytes of `buf` that follow `start` around the ring.
pub open spec fn ring_slice(buf: Seq<u8>, start: int, count: int) -> Seq<u8> {
    Seq::new(count as nat, |i: int| buf[wrap(start + i, buf.len() as int)])
}

/// The bytes stored in the ring `buf`, oldest first.
pub open spec fn ring_contents(buf: Seq<u8>, r: int, w: int) -> Seq<u8> {
    ring_slice(buf, r, ring_len(r, w, buf.len() as int))
}

/// `buf` after `data` has been laid around the ring starting at `start`;
/// every slot that `data` does not reach keeps its byte.
pub open spec fn ring_store(buf: Seq<u8>, start: int, data: Seq<u8>) -> Seq<u8> {
    Seq::new(
        buf.len(),
        |j: int|
            {
                let off = ring_len(start, j, buf.len() as int);
                if off < data.len() {
                    data[off]
                } else {
                    buf[j]
                }
            },
    )
}

/// A ring size that the `u32` positions and the `usize` position sums can
/// hold: `N as u32` does not truncate and `ptr + count` (both below `N`)
/// does not overflow.
pub open spec fn size_fits(n: int) -> bool {
    &&& 0 < n <= u32::MAX
    &&& 2 * n - 2 <= usize::MAX
}

/// `x` bytes out of `y` requested: the smaller of the two.
pub open spec fn min_int(x: int, y: int) -> int {
    if x <= y {
        x
    } else {
        y
    }
}

/// For positions within two turns of the ring, `%` is a single fold.
pub proof fn lemma_mod_is_wrap(p: int, n: int)
    requires
        0 < n,
        0 <= p < 2 * n,
    ensures
        p % n == wrap(p, n),
{
    if p < n {
        lemma_small_mod(p as nat, n as nat);
    } else {
        lemma_small_mod((p - n) as nat, n as nat);
        lemma_mod_sub_multiples_vanish(p, n);
    }
}

/// The stored and the free byte counts of a ring with valid positions
/// always add up to one less than its size, and neither is negative.
pub proof fn law_len_plus_free(r: int, w: int, n: int)
    requires
        0 <= r < n,
        0 <= w < n,
    ensures
        ring_len(r, w, n) + ring_free(r, w, n) == n - 1,
        0 <= ring_len(r, w, n) <= n - 1,
        0 <= ring_free(r, w, n) <= n - 1,
        ring_len(r, w, n) == 0 <==> r == w,
{
}

/// Storing `data` in the free part of a ring, at its write position, and
/// moving the write position past it appends `data` to the ring's
/// contents: nothing already stored is overwritten.
pub proof fn law_store_appends(buf: Seq<u8>, r: int, w: int, data: Seq<u8>)
    requires
        buf.len() > 0,
        0 <= r < buf.len(),
        0 <= w < buf.len(),
        data.len() <= ring_free(r, w, buf.len() as int),
    ensures
        ring_contents(ring_store(buf, w, data), r, wrap(w + data.len(), buf.len() as int))
            == ring_contents(buf, r, w) + data,
{
    let n = buf.len() as int;
    let len = ring_len(r, w, n);
    let k = data.len() as int;
    let w2 = wrap(w + k, n);
    let nb = ring_store(buf, w, data);
    assert(ring_len(r, w2, n) == len + k);
    let lhs = ring_contents(nb, r, w2);
    let rhs = ring_contents(buf, r, w) + data;
    assert forall|i: int| 0 <= i < len + k implies #[trigger] lhs[i] == rhs[i] by {
        let p = wrap(r + i, n);
        if i < len {
            assert(ring_len(w, p, n) == n - len + i);
        } else {
            assert(ring_len(w, p, n) == i - len);
        }
    }
    assert(lhs =~= rhs);
}

/// Taking `k` bytes from the read position and moving the read position past
/// them splits the ring's contents: what was taken, then what remains.
pub proof fn law_take_splits(buf: Seq<u8>, r: int, w: int, k: int)
    requires
        buf.len() > 0,
        0 <= r < buf.len(),
        0 <= w < buf.len(),
        0 <= k <= ring_len(r, w, buf.len() as int),
    ensures
        ring_slice(buf, r, k) == ring_contents(buf, r, w).take(k),
        ring_contents(buf, wrap(r + k, buf.len() as int), w) == ring_contents(buf, r, w).skip(k),
{
    let n = buf.len() as int;
    let len = ring_len(r, w, n);
    let r2 = wrap(r + k, n);
    assert(ring_len(r2, w, n) == len - k);
    assert(ring_slice(buf, r, k) =~= ring_contents(buf, r, w).take(k));
    let lhs = ring_contents(buf, r2, w);
    let rhs = ring_contents(buf, r, w).skip(k);
    assert forall|i: int| 0 <= i < len - k implies #[trigger] lhs[i] == rhs[i] by {
        assert(wrap(r2 + i, n) == wrap(r + k + i, n));
    }
    assert(lhs =~= rhs);
}

/// Storing bytes one by one: one more byte of `data` reaches exactly one
/// more slot, the one `i` places after `start`.
proof fn lemma_store_step(buf: Seq<u8>, start: int, data: Seq<u8>, i: int)
    requires
        buf.len() > 0,
        0 <= start < buf.len(),
        0 <= i < data.len(),
        i < buf.len(),
    ensures
        ring_store(buf, start, data.take(i + 1)) == ring_store(buf, start, data.take(i)).update(
            wrap(start + i, buf.len() as int),
            data[i],
        ),
{
    let n = buf.len() as int;
    let pos = wrap(start + i, n);
    let lhs = ring_store(buf, start, data.take(i + 1));
    let rhs = ring_store(buf, start, data.take(i)).update(pos, data[i]);
    assert(ring_len(start, pos, n) == i);
    assert forall|j: int| 0 <= j < n implies #[trigger] lhs[j] == rhs[j] by {
        if j != pos {
            assert(ring_len(start, j, n) != i);
        }
    }
    assert(lhs =~= rhs);
}

/// The position `count` slots after `ptr`, computed as `(ptr + count) % N`.
pub fn advance<const N: usize>(ptr: u32, count: usize) -> (next: u32)
    requires
        size_fits(N as int),
        ptr < N,
        count < N,
    ensures
        next == wrap(ptr + count, N as int),
        next < N,
{
    proof {
        lemma_mod_is_wrap(ptr + count, N as int);
    }
    ((ptr as usize + count) % N) as u32
}

/// Copies the `count` bytes that follow `start` around `ring` into the front
/// of `out`; the rest of `out` is left as it was.
pub fn copy_from_ring<const N: usize>(ring: &[u8; N], start: usize, count: usize, out: &mut [u8])
    requires
        start < N,
        count <= N,
        count <= old(out)@.len(),
    ensures
        final(out)@ == ring_slice(ring@, start as int, count as int) + old(out)@.skip(
            count as int,
        ),
{
    let ghost n = N as int;
    let mut i: usize = 0;
    let mut pos: usize = start;
    while i < count
        invariant
            n == N,
            i <= count <= N,
            count <= out@.len(),
            start < N,
            ring@.len() == N,
            pos == wrap(start + i, n),
            pos < N,
            out@.len() == old(out)@.len(),
            forall|j: int| 0 <= j < i ==> out@[j] == ring@[wrap(start + j, n)],
            forall|j: int| i <= j < out@.len() ==> out@[j] == old(out)@[j],
        decreases count - i,
    {
        out[i] = ring[pos];
        pos = if pos + 1 == N {
            0
        } else {
            pos + 1
        };
        i = i + 1;
    }
    assert(out@ =~= ring_slice(ring@, start as int, count as int) + old(out)@.skip(count as int));
}

/// Lays the first `count` bytes of `data` around `ring` starting at `start`.
pub fn copy_into_ring<const N: usize>(ring: &mut [u8; N], start: usize, data: &[u8], count: usize)
    requires
        0 < N,
        start < N,
        count <= N,
        count <= data@.len(),
    ensures
        final(ring)@ == ring_store(old(ring)@, start as int, data@.take(count as int)),
{
    let ghost n = N as int;
    let mut i: usize = 0;
    let mut pos: usize = start;
    assert(ring@ =~= ring_store(old(ring)@, start as int, data@.take(0)));
    while i < count
        invariant
            n == N,
            i <= count <= N,
            count <= data@.len(),
            0 < N,
            start < N,
            old(ring)@.len() == N,
            pos == wrap(start + i, n),
            pos < N,
            ring@ == ring_store(old(ring)@, start as int, data@.take(i as int)),
        decreases count - i,
    {
        proof {
            lemma_store_step(old(ring)@, start as int, data@, i as int);
        }
        ring[pos] = data[i];
        pos = if pos + 1 == N {
            0
        } else {
            pos + 1
        };
        i = i + 1;
    }
}

} // verus!
