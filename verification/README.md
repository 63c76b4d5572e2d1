# simple_shmem

Shared-memory IPC between mutually distrustful processes on Linux: two byte
rings in two sealed memfds, one written by each endpoint, with futexes to park
a side that has nothing to read or no room to write.

## Layout

- `src/` — the verified library (Verus):
  - `ring.rs`: ring arithmetic, copying into and out of a ring, and the laws
    that storing appends to the contents and taking splits them.
  - `producer_consumer.rs`: the producer and consumer halves: checking the
    peer's published position, moving bytes, advancing the own position; the
    stream laws (everything read is a prefix of everything written).
  - `dual_ringbuffer.rs`: the two halves of one endpoint.
  - `ringbuffer.rs`: a single-owner ring buffer whose view is its contents.
  - `wait.rs`: the spin-then-park decisions of a waiting side.
  - `wakeup.rs`: the model of a waiting side and its peer, and the proof that
    whenever a parked side sleeps although its peer has moved, a wake is on
    its way (a safety invariant, not a liveness proof).
  - `futex.rs`, `shared_mutex.rs`, `lock_protocol.rs`: the futex word, the
    futex-based mutex's decisions, and the proofs of mutual exclusion and of
    wakeups between two lockers.
  - `layout.rs`: page-aligned region sizes.
  - `cmsg.rs`: the check on a received file-descriptor control message.
- `app/` — the memory mappings, `memfd` and `SCM_RIGHTS` plumbing, atomic
  loads and stores, futex system calls, and the `Read`/`Write` impls that run
  the library's decisions.
- `tests/` — tests of the library on concrete values.

## Not here

There is no `Listener` (accepting a peer over a datagram socket with a
credential check) and no `MmappedRingBuffer` (a `RingBuffer` behind a lock in
one mapping). Neither can be built from what this project defines: they name
an error type and socket helpers that do not exist, and a generic futex lock
in place of the plain `Futex`. `RingBuffer`'s own waiting path (spin, park on
a futex, wake the other side) has no place either: a `RingBuffer` value has a
single owner here, so nothing can move its positions while it waits. Its
futex-wait decision is `Futex::retry_wait_outcome`.
