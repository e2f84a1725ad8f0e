//! Handlers that decorate each record, and the chain that composes them.
use crate::api::{Encodable, Handler};
use crate::sink::KekWrite;
use crate::tick::TickUnit;
use crate::sink::sink_step;
use vstd::bytes::{spec_u64_to_le_bytes, u64_to_le_bytes};
use vstd::prelude::*;

verus! {

/// Writes a timestamp, in a given tick unit, before each record.
#[derive(Debug)]
pub struct TimestampHandler {
    tick: TickUnit,
}

impl TimestampHandler {
    /// A handler that stamps records in `tick` units.
    pub fn new(tick: TickUnit) -> (r: TimestampHandler)
        ensures
            r.tick() == tick,
    {
        TimestampHandler { tick }
    }

    /// The tick unit of the timestamps.
    pub closed spec fn tick(&self) -> TickUnit {
        self.tick
    }
}

impl Handler for TimestampHandler {
    /// Writes the current time, as 8 little-endian bytes.
    fn incoming<E: Encodable>(&mut self, data: &E, write: &mut KekWrite) -> (r: Result<
        usize,
        std::io::Error,
    >)
        ensures
            exists|t: u64| sink_step(old(write)@, final(write)@, spec_u64_to_le_bytes(t)),
    {
        let stamp = u64_to_le_bytes(self.tick.nix_time());
        write.write(stamp.as_slice())
    }
}

/// Writes a sequence number before each record, counting up from a starting number.
#[derive(Debug)]
pub struct SequenceHandler {
    seq: u64,
}

impl Default for SequenceHandler {
    fn default() -> (r: SequenceHandler)
        ensures
            r.spec_seq() == 0,
    {
        SequenceHandler { seq: 0 }
    }
}

impl SequenceHandler {
    /// A handler whose first record gets number `seq + 1`.
    pub fn new(seq: u64) -> (r: SequenceHandler)
        ensures
            r.spec_seq() == seq,
    {
        SequenceHandler { seq }
    }

    /// The number given to the last record.
    pub closed spec fn spec_seq(&self) -> u64 {
        self.seq
    }

    /// The number given to the last record.
    pub fn seq(&self) -> (r: u64)
        ensures
            r == self.spec_seq(),
    {
        self.seq
    }
}

impl Handler for SequenceHandler {
    /// Counts one more record (wrapping after `u64::MAX`) and writes its number,
    /// as 8 little-endian bytes.
    fn incoming<E: Encodable>(&mut self, data: &E, write: &mut KekWrite) -> (r: Result<
        usize,
        std::io::Error,
    >)
        ensures
            final(self).spec_seq() == (old(self).spec_seq() + 1) % 0x1_0000_0000_0000_0000,
            sink_step(old(write)@, final(write)@, spec_u64_to_le_bytes(final(self).spec_seq())),
    {
        self.seq = self.seq.wrapping_add(1);
        let number = u64_to_le_bytes(self.seq);
        write.write(number.as_slice())
    }
}

/// Two handlers linked together: the decorator's `incoming`, then the inner
/// handler's `handle`, then the decorator's `outgoing`.
pub struct ChainedHandler<H: Handler, D: Handler> {
    decorator: Box<D>,
    handler: Box<H>,
}

impl<H: Handler, D: Handler> ChainedHandler<H, D> {
    /// Wraps `handler` in `decorator`.
    pub fn link(handler: H, decorator: D) -> (r: ChainedHandler<H, D>)
        ensures
            r.inner() == handler,
            r.outer() == decorator,
    {
        ChainedHandler { decorator: Box::new(decorator), handler: Box::new(handler) }
    }

    /// The handler that is wrapped.
    pub closed spec fn inner(&self) -> H {
        *self.handler
    }

    /// The handler that wraps.
    pub closed spec fn outer(&self) -> D {
        *self.decorator
    }
}

impl<H: Handler, D: Handler> Handler for ChainedHandler<H, D> {
    fn handle<E: Encodable>(&mut self, data: &E, write: &mut KekWrite) -> (r: Result<
        usize,
        std::io::Error,
    >) {
        match self.decorator.incoming(data, write) {
            Ok(_) => match self.handler.handle(data, write) {
                Ok(_) => self.decorator.outgoing(data, write),
                Err(e) => Err(e),
            },
            Err(e) => Err(e),
        }
    }
}

} // verus!
