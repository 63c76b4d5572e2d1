//! The two halves of a shared-memory channel. A `Producer` owns the write
//! position and the ring it writes into; a `Consumer` owns the read
//! position. Each side sees the other's position only as a number read out
//! of memory the peer controls, so every such number is checked before use.
//!
//! The memory mappings, the atomic loads and stores and the futex calls are
//! done by the caller; these types decide what to copy and where the
//! positions move, and keep the own position (which only this side ever
//! writes) as a plain value.
//!
//! A read copies out of the producer's ring; its contract describes the ring
//! as it is during the copy. An honest producer does not touch the stored
//! part of its ring until the consumer has published a read position past it;
//! a dishonest one can only change the bytes the consumer gets, never make it
//! read or write outside its buffers.
use crate::ring::{
    advance, copy_from_ring, copy_into_ring, law_len_plus_free, law_store_appends, law_take_splits,
    min_int, ring_contents, ring_free, ring_len, ring_slice, ring_store, size_fits, wrap,
};
use core::time::Duration;
use vstd::prelude::*;

verus! {

/// Spin iterations before a waiting side parks on the futex.
pub const DEFAULT_SPIN_LIMIT: u32 = 100;

/// `std::io::Error`, carried through unexamined.
#[verifier::external_type_specification]
#[verifier::external_body]
pub struct ExIoError(std::io::Error);

/// Failure to map one of the two memory regions of a producer or consumer.
pub enum ConsumerProducerError {
    /// Mapping the region this side owns failed.
    OwnedMmap(std::io::Error),
    /// Mapping the peer's region, read-only, failed.
    ReadonlyMmap(std::io::Error),
}

/// The peer published a ring position outside the ring.
#[derive(Debug, Clone, Copy, PartialEq, Eq, Structural)]
pub struct InvalidPeerPtr;

impl InvalidPeerPtr {
    /// The text the error is reported with.
    pub fn message(&self) -> (s: &'static str)
        ensures
            s@ == "peer sent out-of-range ring buffer pointer"@,
    {
        "peer sent out-of-range ring buffer pointer"
    }
}

/// A ring buffer that can only read data.
pub struct Consumer<const N: usize> {
    timeout: Option<Duration>,
    /// Total number of spin iterations before sleeping via futex.
    spin_limit: u32,
    /// The read position, published to the producer after every read.
    read_ptr: u32,
}

/// A ring buffer that can only write data.
pub struct Producer<const N: usize> {
    timeout: Option<Duration>,
    /// Total number of spin iterations before sleeping via futex.
    spin_limit: u32,
    /// The write position, published to the consumer after every write.
    write_ptr: u32,
}

impl<const N: usize> Consumer<N> {
    pub closed spec fn timeout_spec(&self) -> Option<Duration> {
        self.timeout
    }

    pub closed spec fn spin_limit_spec(&self) -> u32 {
        self.spin_limit
    }

    /// The read position.
    pub closed spec fn pos(&self) -> int {
        self.read_ptr as int
    }

    /// Positions fit the ring and the ring size fits the position types.
    pub closed spec fn wf(&self) -> bool {
        &&& size_fits(N as int)
        &&& self.read_ptr < N
    }

    /// A consumer of a fresh ring: read position 0, no timeout, the
    /// default spin limit.
    pub fn new() -> (c: Self)
        requires
            size_fits(N as int),
        ensures
            c.wf(),
            c.pos() == 0,
            c.timeout_spec() is None,
            c.spin_limit_spec() == DEFAULT_SPIN_LIMIT,
    {
        Self { timeout: None, spin_limit: DEFAULT_SPIN_LIMIT, read_ptr: 0 }
    }

    pub fn set_timeout(&mut self, timeout: Option<Duration>)
        ensures
            final(self).timeout_spec() == timeout,
            final(self).spin_limit_spec() == old(self).spin_limit_spec(),
            final(self).pos() == old(self).pos(),
            final(self).wf() == old(self).wf(),
    {
        self.timeout = timeout;
    }

    pub fn set_spin_limit(&mut self, spin_limit: u32)
        ensures
            final(self).spin_limit_spec() == spin_limit,
            final(self).timeout_spec() == old(self).timeout_spec(),
            final(self).pos() == old(self).pos(),
            final(self).wf() == old(self).wf(),
    {
        self.spin_limit = spin_limit;
    }

    pub fn timeout(&self) -> (t: Option<Duration>)
        ensures
            t == self.timeout_spec(),
    {
        self.timeout
    }

    pub fn spin_limit(&self) -> (s: u32)
        ensures
            s == self.spin_limit_spec(),
    {
        self.spin_limit
    }

    /// The read position to publish in shared memory.
    pub fn read_ptr(&self) -> (p: u32)
        requires
            self.wf(),
        ensures
            p == self.pos(),
            p < N,
    {
        self.read_ptr
    }

    /// Bytes stored between `read_ptr` and `write_ptr`.
    pub fn len(read_ptr: u32, write_ptr: u32) -> (len: usize)
        requires
            size_fits(N as int),
            read_ptr < N,
            write_ptr < N,
        ensures
            len == ring_len(read_ptr as int, write_ptr as int, N as int),
    {
        if write_ptr >= read_ptr {
            (write_ptr - read_ptr) as usize
        } else {
            (N as u32 - read_ptr + write_ptr) as usize
        }
    }

    pub fn invalid_peer_ptr() -> (e: InvalidPeerPtr) {
        InvalidPeerPtr
    }

    /// Whether the producer's published write position shows data to read:
    /// the consumer waits while it equals the read position.
    pub fn has_data(&self, write_ptr: u32) -> (ready: bool)
        ensures
            ready == (write_ptr != self.pos()),
    {
        write_ptr != self.read_ptr
    }

    /// Reads from `ring` (the producer's ring, mapped read-only) into `buf`,
    /// once the producer's published write position shows data (the
    /// consumer waits, with `SpinWait`, until it does). An out-of-range
    /// position is refused and nothing changes; otherwise as many stored
    /// bytes as `buf` holds are copied to its front and the read position
    /// moves past them: at least one byte whenever `buf` is not empty.
    pub fn read(&mut self, write_ptr: u32, ring: &[u8; N], buf: &mut [u8]) -> (res: Result<
        usize,
        InvalidPeerPtr,
    >)
        requires
            old(self).wf(),
            write_ptr != old(self).pos(),
        ensures
            final(self).wf(),
            final(self).timeout_spec() == old(self).timeout_spec(),
            final(self).spin_limit_spec() == old(self).spin_limit_spec(),
            write_ptr >= N ==> {
                &&& res is Err
                &&& final(self).pos() == old(self).pos()
                &&& final(buf)@ == old(buf)@
            },
            write_ptr < N ==> {
                let k = min_int(
                    ring_len(old(self).pos(), write_ptr as int, N as int),
                    old(buf)@.len() as int,
                );
                &&& res == Ok::<usize, InvalidPeerPtr>(k as usize)
                &&& old(buf)@.len() > 0 ==> 1 <= k
                &&& final(buf)@ == ring_slice(ring@, old(self).pos(), k) + old(buf)@.skip(k)
                &&& final(self).pos() == wrap(old(self).pos() + k, N as int)
                &&& ring_len(final(self).pos(), write_ptr as int, N as int) == ring_len(
                    old(self).pos(),
                    write_ptr as int,
                    N as int,
                ) - k
            },
    {
        // Reject an out-of-range write_ptr supplied by the untrusted peer.
        if write_ptr >= N as u32 {
            return Err(Self::invalid_peer_ptr());
        }
        let read_ptr = self.read_ptr;
        let stored = Self::len(read_ptr, write_ptr);
        let bytes_read = if stored <= buf.len() {
            stored
        } else {
            buf.len()
        };
        copy_from_ring(ring, read_ptr as usize, bytes_read, buf);
        self.read_ptr = advance::<N>(read_ptr, bytes_read);
        Ok(bytes_read)
    }
}

impl<const N: usize> Producer<N> {
    pub closed spec fn timeout_spec(&self) -> Option<Duration> {
        self.timeout
    }

    pub closed spec fn spin_limit_spec(&self) -> u32 {
        self.spin_limit
    }

    /// The write position.
    pub closed spec fn pos(&self) -> int {
        self.write_ptr as int
    }

    /// Positions fit the ring and the ring size fits the position types.
    pub closed spec fn wf(&self) -> bool {
        &&& size_fits(N as int)
        &&& self.write_ptr < N
    }

    /// A producer of a fresh ring: write position 0, no timeout, the
    /// default spin limit.
    pub fn new() -> (p: Self)
        requires
            size_fits(N as int),
        ensures
            p.wf(),
            p.pos() == 0,
            p.timeout_spec() is None,
            p.spin_limit_spec() == DEFAULT_SPIN_LIMIT,
    {
        Self { timeout: None, spin_limit: DEFAULT_SPIN_LIMIT, write_ptr: 0 }
    }

    pub fn set_timeout(&mut self, timeout: Option<Duration>)
        ensures
            final(self).timeout_spec() == timeout,
            final(self).spin_limit_spec() == old(self).spin_limit_spec(),
            final(self).pos() == old(self).pos(),
            final(self).wf() == old(self).wf(),
    {
        self.timeout = timeout;
    }

    pub fn set_spin_limit(&mut self, spin_limit: u32)
        ensures
            final(self).spin_limit_spec() == spin_limit,
            final(self).timeout_spec() == old(self).timeout_spec(),
            final(self).pos() == old(self).pos(),
            final(self).wf() == old(self).wf(),
    {
        self.spin_limit = spin_limit;
    }

    pub fn timeout(&self) -> (t: Option<Duration>)
        ensures
            t == self.timeout_spec(),
    {
        self.timeout
    }

    pub fn spin_limit(&self) -> (s: u32)
        ensures
            s == self.spin_limit_spec(),
    {
        self.spin_limit
    }

    /// The write position to publish in shared memory.
    pub fn write_ptr(&self) -> (p: u32)
        requires
            self.wf(),
        ensures
            p == self.pos(),
            p < N,
    {
        self.write_ptr
    }

    /// Bytes that can still be written between `read_ptr` and `write_ptr`.
    pub fn empty_space(read_ptr: u32, write_ptr: u32) -> (free: usize)
        requires
            size_fits(N as int),
            read_ptr < N,
            write_ptr < N,
        ensures
            free == ring_free(read_ptr as int, write_ptr as int, N as int),
    {
        N - 1 - Self::len(read_ptr, write_ptr)
    }

    /// Bytes stored between `read_ptr` and `write_ptr`.
    pub fn len(read_ptr: u32, write_ptr: u32) -> (len: usize)
        requires
            size_fits(N as int),
            read_ptr < N,
            write_ptr < N,
        ensures
            len == ring_len(read_ptr as int, write_ptr as int, N as int),
    {
        if write_ptr >= read_ptr {
            (write_ptr - read_ptr) as usize
        } else {
            (N as u32 - read_ptr + write_ptr) as usize
        }
    }

    pub fn invalid_peer_ptr() -> (e: InvalidPeerPtr) {
        InvalidPeerPtr
    }

    /// Whether a write of `buf_len` bytes can move a byte now, given the
    /// consumer's published read position: there is free space and the
    /// write is not empty. The producer waits, with `SpinWait`, while it
    /// cannot. An out-of-range position is refused.
    pub fn writable(&self, read_ptr: u32, buf_len: usize) -> (res: Result<bool, InvalidPeerPtr>)
        requires
            self.wf(),
        ensures
            read_ptr >= N ==> res is Err,
            read_ptr < N ==> res == Ok::<bool, InvalidPeerPtr>(
                ring_free(read_ptr as int, self.pos(), N as int) > 0 && buf_len > 0,
            ),
    {
        if read_ptr >= N as u32 {
            return Err(Self::invalid_peer_ptr());
        }
        let free = Self::empty_space(read_ptr, self.write_ptr);
        Ok(free > 0 && buf_len > 0)
    }

    /// Writes from `buf` into `ring` (this side's ring, shared with the
    /// consumer), once `writable` said a byte can move for the consumer's
    /// published read position: as many bytes of `buf` as there is free space
    /// for, at least one, are laid into the ring at the write position, which
    /// then moves past them without reaching the read position.
    pub fn write(&mut self, read_ptr: u32, ring: &mut [u8; N], buf: &[u8]) -> (bytes_written: usize)
        requires
            old(self).wf(),
            read_ptr < N,
            ring_free(read_ptr as int, old(self).pos(), N as int) > 0,
            buf@.len() > 0,
        ensures
            final(self).wf(),
            final(self).timeout_spec() == old(self).timeout_spec(),
            final(self).spin_limit_spec() == old(self).spin_limit_spec(),
            bytes_written == min_int(
                ring_free(read_ptr as int, old(self).pos(), N as int),
                buf@.len() as int,
            ),
            1 <= bytes_written <= buf@.len(),
            final(ring)@ == ring_store(old(ring)@, old(self).pos(), buf@.take(bytes_written as int)),
            final(self).pos() == wrap(old(self).pos() + bytes_written, N as int),
            ring_len(read_ptr as int, final(self).pos(), N as int) == ring_len(
                read_ptr as int,
                old(self).pos(),
                N as int,
            ) + bytes_written,
            final(self).pos() != read_ptr,
    {
        let write_ptr = self.write_ptr;
        let free = Self::empty_space(read_ptr, write_ptr);
        let bytes_written = if free <= buf.len() {
            free
        } else {
            buf.len()
        };
        proof {
            law_len_plus_free(read_ptr as int, write_ptr as int, N as int);
        }
        copy_into_ring(ring, write_ptr as usize, buf, bytes_written);
        self.write_ptr = advance::<N>(write_ptr, bytes_written);
        bytes_written
    }
}

/// What a consumer gets back of a producer's write. The producer lays `data`
/// into the ring as far as there is room, and moves its write position;
/// the consumer, reading with a buffer of `cap` bytes from its read
/// position, gets the bytes that were stored before, then the new ones, in
/// order. In particular, from an empty ring it gets back exactly the first
/// bytes that were written.
pub proof fn law_read_gives_back_write(buf: Seq<u8>, r: int, w: int, data: Seq<u8>, cap: int)
    requires
        buf.len() > 0,
        0 <= r < buf.len(),
        0 <= w < buf.len(),
        0 <= cap,
    ensures
        ({
            let n = buf.len() as int;
            let k = min_int(ring_free(r, w, n), data.len() as int);
            let stored = ring_store(buf, w, data.take(k));
            let w2 = wrap(w + k, n);
            let m = min_int(ring_len(r, w2, n), cap);
            &&& ring_len(r, w2, n) == ring_len(r, w, n) + k
            &&& ring_slice(stored, r, m) == (ring_contents(buf, r, w) + data.take(k)).take(m)
            &&& r == w ==> ring_slice(stored, r, m) == data.take(min_int(k, cap))
        }),
{
    let n = buf.len() as int;
    let k = min_int(ring_free(r, w, n), data.len() as int);
    let stored = ring_store(buf, w, data.take(k));
    let w2 = wrap(w + k, n);
    law_len_plus_free(r, w, n);
    law_store_appends(buf, r, w, data.take(k));
    assert(stored.len() == n);
    let m = min_int(ring_len(r, w2, n), cap);
    law_take_splits(stored, r, w2, m);
    if r == w {
        assert(ring_contents(buf, r, w) =~= Seq::<u8>::empty());
        assert((ring_contents(buf, r, w) + data.take(k)).take(m) =~= data.take(min_int(k, cap)));
    }
}


/// The bytes read so far, followed by the bytes still in the ring, are the
/// bytes written so far.
pub open spec fn stream_consistent(
    written: Seq<u8>,
    read: Seq<u8>,
    buf: Seq<u8>,
    r: int,
    w: int,
) -> bool {
    read + ring_contents(buf, r, w) == written
}

/// A fresh channel (both positions 0) has neither written nor read anything.
pub proof fn law_stream_starts_empty(buf: Seq<u8>)
    requires
        buf.len() > 0,
    ensures
        stream_consistent(Seq::empty(), Seq::empty(), buf, 0, 0),
{
    assert(Seq::<u8>::empty() + ring_contents(buf, 0, 0) =~= Seq::<u8>::empty());
}

/// Each producer write keeps the channel consistent: the bytes it lays into
/// the ring count as written.
pub proof fn law_stream_write(
    written: Seq<u8>,
    read: Seq<u8>,
    buf: Seq<u8>,
    r: int,
    w: int,
    data: Seq<u8>,
)
    requires
        buf.len() > 0,
        0 <= r < buf.len(),
        0 <= w < buf.len(),
        stream_consistent(written, read, buf, r, w),
    ensures
        ({
            let k = min_int(ring_free(r, w, buf.len() as int), data.len() as int);
            stream_consistent(
                written + data.take(k),
                read,
                ring_store(buf, w, data.take(k)),
                r,
                wrap(w + k, buf.len() as int),
            )
        }),
{
    let n = buf.len() as int;
    let k = min_int(ring_free(r, w, n), data.len() as int);
    law_len_plus_free(r, w, n);
    law_store_appends(buf, r, w, data.take(k));
    assert(read + (ring_contents(buf, r, w) + data.take(k)) =~= written + data.take(k));
}

/// Each consumer read keeps the channel consistent: the bytes it copies out
/// count as read.
pub proof fn law_stream_read(
    written: Seq<u8>,
    read: Seq<u8>,
    buf: Seq<u8>,
    r: int,
    w: int,
    cap: int,
)
    requires
        buf.len() > 0,
        0 <= r < buf.len(),
        0 <= w < buf.len(),
        0 <= cap,
        stream_consistent(written, read, buf, r, w),
    ensures
        ({
            let m = min_int(ring_len(r, w, buf.len() as int), cap);
            stream_consistent(written, read + ring_slice(buf, r, m), buf, wrap(r + m, buf.len() as int), w)
        }),
{
    let n = buf.len() as int;
    let m = min_int(ring_len(r, w, n), cap);
    law_len_plus_free(r, w, n);
    law_take_splits(buf, r, w, m);
    let c = ring_contents(buf, r, w);
    assert(c.take(m) + c.skip(m) =~= c);
    assert(read + ring_slice(buf, r, m) + ring_contents(buf, wrap(r + m, n), w) =~= read + c);
}

/// In a consistent channel the consumer has read a prefix of what the
/// producer wrote: nothing is lost, duplicated or reordered.
pub proof fn law_stream_read_is_prefix(
    written: Seq<u8>,
    read: Seq<u8>,
    buf: Seq<u8>,
    r: int,
    w: int,
)
    requires
        stream_consistent(written, read, buf, r, w),
    ensures
        read.len() <= written.len(),
        written.take(read.len() as int) == read,
{
    assert(written.take(read.len() as int) =~= read);
}

} // verus!
