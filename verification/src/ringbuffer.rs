//! A ring buffer owned by one party at a time: the ring, its two positions
//! and the two contention flags in one value. Its contents, oldest byte
//! first, are its view; reads take from the front and writes append.
//!
//! A call that can move no byte (reading an empty buffer, writing a full one,
//! or an empty `buf`) would wait for another party to move a position; such
//! calls are not part of this type's contract.
use crate::ring::{
    advance, copy_from_ring, copy_into_ring, law_len_plus_free, law_store_appends, law_take_splits,
    min_int, ring_contents, ring_free, ring_len, ring_store, size_fits, wrap,
};
use vstd::prelude::*;

verus! {

pub struct RingBuffer<const N: usize> {
    read_ptr: u32,
    write_ptr: u32,
    read_ptr_contended: u32,
    write_ptr_contended: u32,
    buffer: [u8; N],
}

impl<const N: usize> View for RingBuffer<N> {
    type V = Seq<u8>;

    /// The bytes stored, oldest first.
    closed spec fn view(&self) -> Seq<u8> {
        ring_contents(self.buffer@, self.read_ptr as int, self.write_ptr as int)
    }
}

impl<const N: usize> RingBuffer<N> {
    /// Positions inside the ring, a ring size the positions can hold, and
    /// nobody parked waiting on either position.
    pub closed spec fn wf(&self) -> bool {
        &&& size_fits(N as int)
        &&& self.read_ptr < N
        &&& self.write_ptr < N
        &&& self.read_ptr_contended == 0
        &&& self.write_ptr_contended == 0
    }

    /// The raw ring, including the slots that hold no data.
    pub closed spec fn slots(&self) -> Seq<u8> {
        self.buffer@
    }

    /// The read position: the slot of the oldest stored byte.
    pub closed spec fn read_pos(&self) -> int {
        self.read_ptr as int
    }

    /// The write position: the slot the next byte goes to.
    pub closed spec fn write_pos(&self) -> int {
        self.write_ptr as int
    }

    /// The contention flags of the read and the write position.
    pub closed spec fn flags(&self) -> (u32, u32) {
        (self.read_ptr_contended, self.write_ptr_contended)
    }

    /// A well-formed buffer has both positions inside its `N` slots.
    pub proof fn lemma_wf_ranges(&self)
        requires
            self.wf(),
        ensures
            0 <= self.read_pos() < N,
            0 <= self.write_pos() < N,
            self.slots().len() == N,
    {
    }

    /// The contents are the slots from the read to the write position.
    pub proof fn lemma_view_is_contents(&self)
        ensures
            self@ == ring_contents(self.slots(), self.read_pos(), self.write_pos()),
    {
    }

    /// A buffer over the ring `buffer` whose stored bytes run from
    /// `read_ptr` to `write_ptr`.
    pub fn new(read_ptr: u32, write_ptr: u32, buffer: [u8; N]) -> (rb: Self)
        requires
            N > 2,
            size_fits(N as int),
            read_ptr < N,
            write_ptr < N,
        ensures
            rb.wf(),
            rb.slots() == buffer@,
            rb.read_pos() == read_ptr,
            rb.write_pos() == write_ptr,
            rb.flags() == (0u32, 0u32),
            rb@ == ring_contents(buffer@, read_ptr as int, write_ptr as int),
    {
        Self { read_ptr, write_ptr, read_ptr_contended: 0, write_ptr_contended: 0, buffer }
    }

    /// Empties the buffer: both positions and both flags back to 0. The
    /// ring's slots keep their bytes.
    pub fn initialize(&mut self)
        ensures
            final(self)@ == Seq::<u8>::empty(),
            final(self).slots() == old(self).slots(),
            final(self).read_pos() == 0,
            final(self).write_pos() == 0,
            final(self).flags() == (0u32, 0u32),
            size_fits(N as int) ==> final(self).wf(),
    {
        self.read_ptr = 0;
        self.write_ptr = 0;
        self.read_ptr_contended = 0;
        self.write_ptr_contended = 0;
        assert(self@ =~= Seq::<u8>::empty());
    }

    /// The number of slots in the ring (one more than it can hold).
    pub fn capacity(&self) -> (c: usize)
        ensures
            c == N,
    {
        N
    }

    /// Bytes stored between `read_ptr` and `write_ptr`.
    pub fn len(&self, read_ptr: u32, write_ptr: u32) -> (len: usize)
        requires
            size_fits(N as int),
            read_ptr < N,
            write_ptr < N,
        ensures
            len == ring_len(read_ptr as int, write_ptr as int, N as int),
    {
        if write_ptr >= read_ptr {
            (write_ptr - read_ptr) as usize
        } else {
            (N as u32 - read_ptr + write_ptr) as usize
        }
    }

    /// Bytes that can still be written between `read_ptr` and `write_ptr`.
    pub fn empty_space(&self, read_ptr: u32, write_ptr: u32) -> (free: usize)
        requires
            size_fits(N as int),
            read_ptr < N,
            write_ptr < N,
        ensures
            free == ring_free(read_ptr as int, write_ptr as int, N as int),
    {
        N - 1 - self.len(read_ptr, write_ptr)
    }

    /// Takes as many of the oldest bytes as `buf` holds, and copies them to
    /// the front of `buf`.
    pub fn read(&mut self, buf: &mut [u8]) -> (bytes_read: usize)
        requires
            old(self).wf(),
            old(self)@.len() > 0,
            old(buf)@.len() > 0,
        ensures
            final(self).wf(),
            bytes_read == min_int(old(self)@.len() as int, old(buf)@.len() as int),
            final(buf)@ == old(self)@.take(bytes_read as int) + old(buf)@.skip(bytes_read as int),
            final(self)@ == old(self)@.skip(bytes_read as int),
            final(self).slots() == old(self).slots(),
            final(self).read_pos() == wrap(old(self).read_pos() + bytes_read, N as int),
            final(self).write_pos() == old(self).write_pos(),
            final(self).flags() == old(self).flags(),
    {
        let read_ptr = self.read_ptr;
        let write_ptr = self.write_ptr;
        let stored = self.len(read_ptr, write_ptr);
        let bytes_read = if stored <= buf.len() {
            stored
        } else {
            buf.len()
        };
        proof {
            law_len_plus_free(read_ptr as int, write_ptr as int, N as int);
            law_take_splits(self.buffer@, read_ptr as int, write_ptr as int, bytes_read as int);
        }
        copy_from_ring(&self.buffer, read_ptr as usize, bytes_read, buf);
        self.read_ptr = advance::<N>(read_ptr, bytes_read);
        bytes_read
    }

    /// Appends as many bytes of `buf` as there is room for.
    pub fn write(&mut self, buf: &[u8]) -> (bytes_written: usize)
        requires
            old(self).wf(),
            old(self)@.len() < N - 1,
            buf@.len() > 0,
        ensures
            final(self).wf(),
            bytes_written == min_int(N - 1 - old(self)@.len(), buf@.len() as int),
            final(self)@ == old(self)@ + buf@.take(bytes_written as int),
            final(self).slots() == ring_store(
                old(self).slots(),
                old(self).write_pos(),
                buf@.take(bytes_written as int),
            ),
            final(self).write_pos() == wrap(old(self).write_pos() + bytes_written, N as int),
            final(self).read_pos() == old(self).read_pos(),
            final(self).flags() == old(self).flags(),
    {
        let read_ptr = self.read_ptr;
        let write_ptr = self.write_ptr;
        let free = self.empty_space(read_ptr, write_ptr);
        let bytes_written = if free <= buf.len() {
            free
        } else {
            buf.len()
        };
        proof {
            law_len_plus_free(read_ptr as int, write_ptr as int, N as int);
            law_store_appends(self.buffer@, read_ptr as int, write_ptr as int, buf@.take(bytes_written as int));
        }
        copy_into_ring(&mut self.buffer, write_ptr as usize, buf, bytes_written);
        self.write_ptr = advance::<N>(write_ptr, bytes_written);
        bytes_written
    }
}

impl<const N: usize> Default for RingBuffer<N> {
    /// An empty buffer over a zeroed ring.
    fn default() -> (rb: Self)
        ensures
            rb@ == Seq::<u8>::empty(),
            rb.slots() == Seq::new(N as nat, |i: int| 0u8),
            rb.read_pos() == 0,
            rb.write_pos() == 0,
            rb.flags() == (0u32, 0u32),
            size_fits(N as int) ==> rb.wf(),
    {
        let rb = Self {
            read_ptr: 0,
            write_ptr: 0,
            read_ptr_contended: 0,
            write_ptr_contended: 0,
            buffer: [0u8; N],
        };
        assert(rb@ =~= Seq::<u8>::empty());
        assert(rb.slots() =~= Seq::new(N as nat, |i: int| 0u8));
        rb
    }
}

/// What a read gives back of a write: writing `data` to a buffer holding
/// `stored` and then reading `cap` bytes returns the oldest bytes first,
/// and from an empty buffer returns the first bytes written.
pub proof fn law_fifo(stored: Seq<u8>, data: Seq<u8>, k: int, cap: int)
    requires
        0 <= k <= data.len(),
        0 <= cap,
    ensures
        ({
            let after_write = stored + data.take(k);
            let m = min_int(after_write.len() as int, cap);
            &&& forall|i: int|
                0 <= i < m && i < stored.len() ==> #[trigger] after_write.take(m)[i] == stored[i]
            &&& forall|i: int|
                stored.len() <= i < m ==> #[trigger] after_write.take(m)[i] == data[i
                    - stored.len()]
            &&& stored.len() == 0 ==> after_write.take(m) == data.take(min_int(k, cap))
        }),
{
    let after_write = stored + data.take(k);
    let m = min_int(after_write.len() as int, cap);
    if stored.len() == 0 {
        assert(after_write.take(m) =~= data.take(min_int(k, cap)));
    }
}

} // verus!
