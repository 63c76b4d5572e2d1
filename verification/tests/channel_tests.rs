use simple_shmem::dual_ringbuffer::DualRingBuffers;
use simple_shmem::producer_consumer::{Consumer, InvalidPeerPtr, Producer, DEFAULT_SPIN_LIMIT};
use std::time::Duration;

#[test]
fn fresh_halves_use_defaults() {
    let c = Consumer::<8>::new();
    let p = Producer::<8>::new();
    assert_eq!(c.read_ptr(), 0);
    assert_eq!(p.write_ptr(), 0);
    assert_eq!(c.spin_limit(), DEFAULT_SPIN_LIMIT);
    assert_eq!(p.spin_limit(), 100);
    assert_eq!(c.timeout(), None);
    assert_eq!(p.timeout(), None);
}

#[test]
fn lengths_and_free_space() {
    assert_eq!(Consumer::<8>::len(3, 3), 0);
    assert_eq!(Consumer::<8>::len(1, 6), 5);
    assert_eq!(Consumer::<8>::len(6, 1), 3);
    assert_eq!(Producer::<8>::len(6, 1), 3);
    assert_eq!(Producer::<8>::empty_space(6, 1), 4);
    assert_eq!(Producer::<8>::empty_space(0, 0), 7);
    assert_eq!(Producer::<8>::empty_space(0, 7), 0);
}

#[test]
fn producer_bytes_reach_consumer() {
    let mut ring = [0u8; 8];
    let mut p = Producer::<8>::new();
    let mut c = Consumer::<8>::new();
    assert_eq!(p.write(c.read_ptr(), &mut ring, b"ping"), 4);
    assert_eq!(p.write_ptr(), 4);
    assert!(c.has_data(p.write_ptr()));
    let mut buf = [0u8; 4];
    assert_eq!(c.read(p.write_ptr(), &ring, &mut buf), Ok(4));
    assert_eq!(&buf, b"ping");
    assert_eq!(c.read_ptr(), 4);
    assert!(!c.has_data(p.write_ptr()));
}

#[test]
fn producer_stops_at_free_space_and_wraps() {
    let mut ring = [0u8; 8];
    let mut p = Producer::<8>::new();
    let mut c = Consumer::<8>::new();
    assert_eq!(p.writable(c.read_ptr(), 20), Ok(true));
    assert_eq!(p.writable(c.read_ptr(), 0), Ok(false));
    assert_eq!(p.write(c.read_ptr(), &mut ring, b"abcdefghij"), 7);
    // the ring is full: the producer must wait
    assert_eq!(p.writable(c.read_ptr(), 20), Ok(false));
    assert!(!c.has_data(c.read_ptr()));
    let mut buf = [0u8; 5];
    assert_eq!(c.read(p.write_ptr(), &ring, &mut buf), Ok(5));
    assert_eq!(&buf, b"abcde");
    assert_eq!(p.writable(c.read_ptr(), 6), Ok(true));
    assert_eq!(p.write(c.read_ptr(), &mut ring, b"klmnop"), 5);
    assert_eq!(p.write_ptr(), 4);
    let mut rest = [0u8; 16];
    assert_eq!(c.read(p.write_ptr(), &ring, &mut rest), Ok(7));
    assert_eq!(&rest[..7], b"fgklmno");
    assert_eq!(c.read_ptr(), 4);
}

#[test]
fn consumer_reads_no_more_than_buffer() {
    let mut ring = [0u8; 8];
    let mut p = Producer::<8>::new();
    let mut c = Consumer::<8>::new();
    assert_eq!(p.write(0, &mut ring, b"hello"), 5);
    let mut buf = [9u8; 3];
    assert_eq!(c.read(p.write_ptr(), &ring, &mut buf), Ok(3));
    assert_eq!(&buf, b"hel");
    let mut empty: [u8; 0] = [];
    // data is there, so the consumer does not wait; an empty buffer takes none of it
    assert_eq!(c.read(p.write_ptr(), &ring, &mut empty), Ok(0));
    assert_eq!(c.read_ptr(), 3);
}

#[test]
fn consumer_refuses_out_of_range_write_ptr() {
    let ring = [1u8; 8];
    let mut c = Consumer::<8>::new();
    let mut buf = [0u8; 4];
    assert_eq!(c.read(8, &ring, &mut buf), Err(InvalidPeerPtr));
    assert_eq!(c.read(u32::MAX, &ring, &mut buf), Err(InvalidPeerPtr));
    assert_eq!(buf, [0u8; 4]);
    assert_eq!(c.read_ptr(), 0);
}

#[test]
fn producer_refuses_out_of_range_read_ptr() {
    let mut ring = [0u8; 8];
    let mut p = Producer::<8>::new();
    assert_eq!(p.writable(9, 4), Err(InvalidPeerPtr));
    assert_eq!(p.writable(8, 4), Err(InvalidPeerPtr));
    assert_eq!(p.writable(u32::MAX, 4), Err(InvalidPeerPtr));
    assert_eq!(ring, [0u8; 8]);
    assert_eq!(p.write_ptr(), 0);
}

#[test]
fn invalid_peer_ptr_message() {
    assert_eq!(
        Consumer::<8>::invalid_peer_ptr().message(),
        "peer sent out-of-range ring buffer pointer"
    );
    assert_eq!(Producer::<8>::invalid_peer_ptr(), InvalidPeerPtr);
}

#[test]
fn setters_change_only_their_field() {
    let mut c = Consumer::<8>::new();
    c.set_timeout(Some(Duration::from_millis(5)));
    c.set_spin_limit(7);
    assert_eq!(c.timeout(), Some(Duration::from_millis(5)));
    assert_eq!(c.spin_limit(), 7);
    let mut p = Producer::<8>::new();
    p.set_spin_limit(3);
    p.set_timeout(Some(Duration::from_secs(1)));
    assert_eq!(p.spin_limit(), 3);
    assert_eq!(p.timeout(), Some(Duration::from_secs(1)));
}

#[test]
fn dual_setters_reach_both_halves() {
    let mut d = DualRingBuffers::new(Consumer::<32>::new(), Producer::<32>::new());
    d.set_timeout(Some(Duration::from_secs(30)));
    d.set_spin_limit(1000);
    assert_eq!(d.consumer().timeout(), Some(Duration::from_secs(30)));
    assert_eq!(d.producer().timeout(), Some(Duration::from_secs(30)));
    assert_eq!(d.consumer().spin_limit(), 1000);
    assert_eq!(d.producer().spin_limit(), 1000);
    d.set_timeout(None);
    assert_eq!(d.consumer().timeout(), None);
    assert_eq!(d.producer().spin_limit(), 1000);
}

#[test]
fn dual_halves_exchange_in_both_directions() {
    let mut a = DualRingBuffers::new(Consumer::<32>::new(), Producer::<32>::new());
    let mut b = DualRingBuffers::new(Consumer::<32>::new(), Producer::<32>::new());
    let mut a_ring = [0u8; 32];
    let mut b_ring = [0u8; 32];
    {
        let (b_cons, _) = b.halves_mut();
        let read_ptr = b_cons.read_ptr();
        let (_, a_prod) = a.halves_mut();
        assert_eq!(a_prod.write(read_ptr, &mut a_ring, b"ping"), 4);
    }
    let a_wp = a.producer().write_ptr();
    let mut buf = [0u8; 4];
    {
        let (b_cons, _) = b.halves_mut();
        assert_eq!(b_cons.read(a_wp, &a_ring, &mut buf), Ok(4));
    }
    assert_eq!(&buf, b"ping");
    let a_rp = a.consumer().read_ptr();
    {
        let (_, b_prod) = b.halves_mut();
        assert_eq!(b_prod.write(a_rp, &mut b_ring, b"pong"), 4);
    }
    let b_wp = b.producer().write_ptr();
    {
        let (a_cons, _) = a.halves_mut();
        assert_eq!(a_cons.read(b_wp, &b_ring, &mut buf), Ok(4));
    }
    assert_eq!(&buf, b"pong");
}

#[test]
fn stream_of_reads_is_prefix_of_writes() {
    let mut ring = [0u8; 8];
    let mut p = Producer::<8>::new();
    let mut c = Consumer::<8>::new();
    let mut written = Vec::new();
    let mut read = Vec::new();
    let source: Vec<u8> = (0u8..100).collect();
    let mut next = 0;
    let caps = [3usize, 1, 5, 8, 2, 7];
    for round in 0..40 {
        let chunk = &source[next..(next + 6).min(source.len())];
        if p.writable(c.read_ptr(), chunk.len()).unwrap() {
            let n = p.write(c.read_ptr(), &mut ring, chunk);
            assert!(n >= 1);
            written.extend_from_slice(&chunk[..n]);
            next += n;
        }
        if c.has_data(p.write_ptr()) {
            let mut buf = vec![0u8; caps[round % caps.len()]];
            let m = c.read(p.write_ptr(), &ring, &mut buf).unwrap();
            assert!(m >= 1);
            read.extend_from_slice(&buf[..m]);
        }
        assert!(read.len() <= written.len());
        assert_eq!(&written[..read.len()], &read[..]);
    }
    assert_eq!(&written[..], &source[..written.len()]);
    assert!(read.len() > 50);
}
