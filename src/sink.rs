//! The bounded sink into which a record is encoded.
use vstd::prelude::*;

verus! {

/// Relies on `std::io::Error::new`: builds an error of kind `WriteZero`,
/// reporting the size asked for and the size allowed.
#[verifier::external_body]
fn write_zero_error(wanted: usize, max_size: usize) -> std::io::Error {
    std::io::Error::new(
        std::io::ErrorKind::WriteZero,
        format!("Data larger than maximum allowed {} > {}", wanted, max_size),
    )
}

/// What a sink holds: the bytes written so far, its bound, and whether a write overflowed.
pub struct SinkView {
    pub bytes: Seq<u8>,
    pub max_size: nat,
    pub failed: bool,
}

/// The sink state after writing `data` into a sink in state `s`: once a write
/// overflows the bound, the sink fails and ignores every later write.
pub open spec fn spec_after_write(s: SinkView, data: Seq<u8>) -> SinkView {
    if s.failed {
        s
    } else if s.bytes.len() + data.len() > s.max_size {
        SinkView { failed: true, ..s }
    } else {
        SinkView { bytes: s.bytes + data, ..s }
    }
}

/// Going from `s` to `t`, a sink took `data` as one write would: it keeps its bound,
/// fails exactly when the bytes would not fit, and otherwise appends them.
pub open spec fn sink_step(s: SinkView, t: SinkView, data: Seq<u8>) -> bool {
    &&& t.max_size == s.max_size
    &&& t.failed == (s.failed || s.bytes.len() + data.len() > s.max_size)
    &&& !t.failed ==> t.bytes == s.bytes + data
}

/// Going from `s` to `t`, a sink only grew: same bound, failure kept, bytes extended.
pub open spec fn sink_extends(s: SinkView, t: SinkView) -> bool {
    &&& t.max_size == s.max_size
    &&& s.failed ==> t.failed
    &&& !t.failed ==> s.bytes.is_prefix_of(t.bytes)
}

/// A sink of bounded size. A write that would exceed the bound fails, and the sink
/// then stays failed, ignoring every later write, until it is reset.
pub struct KekWrite {
    buf: Vec<u8>,
    max_size: usize,
    failed: bool,
}

impl View for KekWrite {
    type V = SinkView;

    closed spec fn view(&self) -> SinkView {
        SinkView { bytes: self.buf@, max_size: self.max_size as nat, failed: self.failed }
    }
}

impl KekWrite {
    #[verifier::type_invariant]
    spec fn inv(&self) -> bool {
        self.buf@.len() <= self.max_size
    }

    /// An empty sink that takes at most `max_size` bytes.
    pub fn new(max_size: usize) -> (r: KekWrite)
        ensures
            r@ == (SinkView { bytes: Seq::empty(), max_size: max_size as nat, failed: false }),
    {
        KekWrite { buf: Vec::new(), max_size, failed: false }
    }

    /// Empties the sink, clears its failure and sets its bound to `max_size`.
    pub fn reset(&mut self, max_size: usize)
        ensures
            final(self)@ == (SinkView { bytes: Seq::empty(), max_size: max_size as nat, failed: false }),
    {
        *self = KekWrite { buf: Vec::new(), max_size, failed: false };
    }

    /// Writes `data` after the bytes already held.
    ///
    /// Returns the number of bytes taken: all of them, or zero once the sink has failed.
    /// A write that would exceed the bound takes nothing, fails the sink and returns an
    /// error of kind `WriteZero`.
    pub fn write(&mut self, data: &[u8]) -> (r: Result<usize, std::io::Error>)
        ensures
            final(self)@ == spec_after_write(old(self)@, data@),
            old(self)@.failed ==> r == Ok::<usize, std::io::Error>(0),
            !old(self)@.failed ==> (r is Ok <==> !final(self)@.failed),
            !final(self)@.failed ==> r == Ok::<usize, std::io::Error>(data@.len() as usize),
    {
        proof {
            use_type_invariant(&*self);
        }
        if self.failed {
            return Ok(0);
        }
        let total = self.buf.len();
        if data.len() > self.max_size - total {
            self.failed = true;
            let wanted = if data.len() > usize::MAX - total {
                usize::MAX
            } else {
                total + data.len()
            };
            return Err(write_zero_error(wanted, self.max_size));
        }
        let mut taken = KekWrite::new(0);
        std::mem::swap(self, &mut taken);
        let KekWrite { mut buf, max_size, failed } = taken;
        let mut i: usize = 0;
        while i < data.len()
            invariant
                0 <= i <= data@.len(),
                total == old(self)@.bytes.len(),
                total + data@.len() <= max_size,
                max_size == old(self)@.max_size,
                failed == old(self)@.failed,
                !failed,
                buf@ == old(self)@.bytes + data@.subrange(0, i as int),
            decreases data@.len() - i,
        {
            buf.push(data[i]);
            assert(buf@ =~= old(self)@.bytes + data@.subrange(0, i + 1));
            i = i + 1;
        }
        assert(data@.subrange(0, data@.len() as int) =~= data@);
        *self = KekWrite { buf, max_size, failed };
        Ok(data.len())
    }

    /// Does nothing: the sink keeps its bytes in memory.
    pub fn flush(&mut self) -> (r: Result<(), std::io::Error>)
        ensures
            final(self)@ == old(self)@,
            r is Ok,
    {
        Ok(())
    }

    /// The bytes written so far.
    pub fn bytes(&self) -> (r: &[u8])
        ensures
            r@ == self@.bytes,
    {
        self.buf.as_slice()
    }

    /// The number of bytes written so far.
    pub fn total(&self) -> (r: usize)
        ensures
            r == self@.bytes.len(),
            r <= self@.max_size,
    {
        proof {
            use_type_invariant(self);
        }
        self.buf.len()
    }

    /// Tells whether a write overflowed the bound since the last reset.
    pub fn failed(&self) -> (r: bool)
        ensures
            r == self@.failed,
    {
        self.failed
    }

    /// The bound of the sink.
    pub fn max_size(&self) -> (r: usize)
        ensures
            r == self@.max_size,
    {
        self.max_size
    }
}

} // verus!
