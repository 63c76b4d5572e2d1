use simple_shmem::ring::{advance, copy_from_ring, copy_into_ring};
use simple_shmem::ringbuffer::RingBuffer;

#[test]
fn advance_wraps_past_the_end() {
    assert_eq!(advance::<8>(5, 2), 7);
    assert_eq!(advance::<8>(5, 3), 0);
    assert_eq!(advance::<8>(6, 7), 5);
    assert_eq!(advance::<8>(0, 0), 0);
}

#[test]
fn copy_from_ring_without_wrap() {
    let ring: [u8; 8] = [10, 11, 12, 13, 14, 15, 16, 17];
    let mut out = [0u8; 5];
    copy_from_ring(&ring, 2, 3, &mut out);
    assert_eq!(out, [12, 13, 14, 0, 0]);
}

#[test]
fn copy_from_ring_with_wrap() {
    let ring: [u8; 8] = [10, 11, 12, 13, 14, 15, 16, 17];
    let mut out = [9u8; 6];
    copy_from_ring(&ring, 6, 4, &mut out);
    assert_eq!(out, [16, 17, 10, 11, 9, 9]);
}

#[test]
fn copy_into_ring_with_wrap() {
    let mut ring = [0u8; 8];
    copy_into_ring(&mut ring, 6, b"abcdef", 4);
    assert_eq!(ring, [b'c', b'd', 0, 0, 0, 0, b'a', b'b']);
}

#[test]
fn copy_into_ring_leaves_other_slots() {
    let mut ring = [7u8; 8];
    copy_into_ring(&mut ring, 1, b"xy", 2);
    assert_eq!(ring, [7, b'x', b'y', 7, 7, 7, 7, 7]);
}

#[test]
fn ringbuffer_capacity_and_lengths() {
    let rb = RingBuffer::<8>::new(0, 0, [0; 8]);
    assert_eq!(rb.capacity(), 8);
    assert_eq!(rb.len(2, 5), 3);
    assert_eq!(rb.len(5, 2), 5);
    assert_eq!(rb.len(4, 4), 0);
    assert_eq!(rb.empty_space(2, 5), 4);
    assert_eq!(rb.empty_space(5, 2), 2);
    assert_eq!(rb.empty_space(4, 4), 7);
}

#[test]
fn ringbuffer_write_then_read_gives_back_bytes() {
    let mut rb = RingBuffer::<8>::default();
    assert_eq!(rb.write(b"ping"), 4);
    let mut buf = [0u8; 4];
    assert_eq!(rb.read(&mut buf), 4);
    assert_eq!(&buf, b"ping");
}

#[test]
fn ringbuffer_write_stops_one_short_of_full() {
    let mut rb = RingBuffer::<8>::default();
    assert_eq!(rb.write(b"0123456789"), 7);
    let mut buf = [0u8; 10];
    assert_eq!(rb.read(&mut buf), 7);
    assert_eq!(&buf[..7], b"0123456");
    assert_eq!(&buf[7..], &[0, 0, 0]);
}

#[test]
fn ringbuffer_keeps_order_across_the_wrap() {
    let mut rb = RingBuffer::<8>::new(6, 6, [0; 8]);
    assert_eq!(rb.write(b"abc"), 3);
    assert_eq!(rb.write(b"de"), 2);
    let mut buf = [0u8; 2];
    assert_eq!(rb.read(&mut buf), 2);
    assert_eq!(&buf, b"ab");
    let mut rest = [0u8; 8];
    assert_eq!(rb.read(&mut rest), 3);
    assert_eq!(&rest[..3], b"cde");
}

#[test]
fn ringbuffer_new_reads_the_given_window() {
    let mut rb = RingBuffer::<4>::new(3, 1, [b'b', b'z', b'z', b'a']);
    let mut buf = [0u8; 4];
    assert_eq!(rb.read(&mut buf), 2);
    assert_eq!(&buf[..2], b"ab");
}

#[test]
fn ringbuffer_initialize_empties() {
    let mut rb = RingBuffer::<8>::default();
    assert_eq!(rb.write(b"abc"), 3);
    rb.initialize();
    assert_eq!(rb.write(b"0123456789"), 7);
}

#[test]
fn ringbuffer_wraps_from_the_last_slot() {
    let mut rb = RingBuffer::<4>::new(3, 3, [0u8; 4]);
    assert_eq!(rb.write(&[7, 8, 9, 10]), 3);
    let mut buf = [0u8; 4];
    assert_eq!(rb.read(&mut buf), 3);
    assert_eq!(buf, [7, 8, 9, 0]);
    // both positions are now at slot 2: the next byte lands there
    assert_eq!(rb.write(&[5]), 1);
    let mut one = [0u8; 1];
    assert_eq!(rb.read(&mut one), 1);
    assert_eq!(one, [5]);
}
