//! Byte rings for inter-process communication over shared memory.
pub mod cmsg;
pub mod dual_ringbuffer;
pub mod futex;
pub mod layout;
pub mod lock_protocol;
pub mod producer_consumer;
pub mod ring;
pub mod ringbuffer;
pub mod shared_mutex;
pub mod wait;
pub mod wakeup;
