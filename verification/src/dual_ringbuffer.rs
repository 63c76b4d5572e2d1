//! Two one-way channels, one in each direction, make a two-way endpoint.
use crate::producer_consumer::{Consumer, Producer};
use core::time::Duration;
use vstd::prelude::*;

verus! {

/// One endpoint of a two-way channel: it reads from the peer's ring and
/// writes into its own.
pub struct DualRingBuffers<const N: usize> {
    consumer: Consumer<N>,
    producer: Producer<N>,
}

impl<const N: usize> DualRingBuffers<N> {
    pub closed spec fn consumer_spec(&self) -> Consumer<N> {
        self.consumer
    }

    pub closed spec fn producer_spec(&self) -> Producer<N> {
        self.producer
    }

    pub fn new(consumer: Consumer<N>, producer: Producer<N>) -> (d: Self)
        ensures
            d.consumer_spec() == consumer,
            d.producer_spec() == producer,
    {
        Self { consumer, producer }
    }

    /// Sets the futex timeout of both directions.
    pub fn set_timeout(&mut self, timeout: Option<Duration>)
        ensures
            final(self).consumer_spec().timeout_spec() == timeout,
            final(self).producer_spec().timeout_spec() == timeout,
            final(self).consumer_spec().spin_limit_spec() == old(
                self,
            ).consumer_spec().spin_limit_spec(),
            final(self).producer_spec().spin_limit_spec() == old(
                self,
            ).producer_spec().spin_limit_spec(),
            final(self).consumer_spec().pos() == old(self).consumer_spec().pos(),
            final(self).producer_spec().pos() == old(self).producer_spec().pos(),
            final(self).consumer_spec().wf() == old(self).consumer_spec().wf(),
            final(self).producer_spec().wf() == old(self).producer_spec().wf(),
    {
        self.consumer.set_timeout(timeout);
        self.producer.set_timeout(timeout);
    }

    /// Sets the spin limit of both directions.
    pub fn set_spin_limit(&mut self, spin_limit: u32)
        ensures
            final(self).consumer_spec().spin_limit_spec() == spin_limit,
            final(self).producer_spec().spin_limit_spec() == spin_limit,
            final(self).consumer_spec().timeout_spec() == old(self).consumer_spec().timeout_spec(),
            final(self).producer_spec().timeout_spec() == old(self).producer_spec().timeout_spec(),
            final(self).consumer_spec().pos() == old(self).consumer_spec().pos(),
            final(self).producer_spec().pos() == old(self).producer_spec().pos(),
            final(self).consumer_spec().wf() == old(self).consumer_spec().wf(),
            final(self).producer_spec().wf() == old(self).producer_spec().wf(),
    {
        self.consumer.set_spin_limit(spin_limit);
        self.producer.set_spin_limit(spin_limit);
    }

    /// The reading half.
    pub fn consumer(&self) -> (c: &Consumer<N>)
        ensures
            *c == self.consumer_spec(),
    {
        &self.consumer
    }

    /// The writing half.
    pub fn producer(&self) -> (p: &Producer<N>)
        ensures
            *p == self.producer_spec(),
    {
        &self.producer
    }

    /// Both halves, for one read or write.
    pub fn halves_mut(&mut self) -> (h: (&mut Consumer<N>, &mut Producer<N>))
        ensures
            *h.0 == old(self).consumer_spec(),
            *h.1 == old(self).producer_spec(),
            final(self).consumer_spec() == *final(h.0),
            final(self).producer_spec() == *final(h.1),
    {
        (&mut self.consumer, &mut self.producer)
    }
}

} // verus!
