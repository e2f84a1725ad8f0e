//! The consumer side of a channel: decoding record markers, latching failures,
//! and the timeout policy.
//!
//! A [`ChannelReader`] decides what the marker at its position means; the caller
//! owns the mapped region, loads each marker with acquire ordering, and hands it in.
use crate::api::{ReadError, Reader};
use crate::framing::{align, decode_marker, record_size, Marker, spec_decode_marker, FOOTER_LEN, REC_HEADER_LEN};
use crate::metadata::{valid_metadata, Metadata};
use crate::tick::TickUnit;
use vstd::prelude::*;

verus! {

/// What a marker told the reader to do.
#[derive(Clone, Copy, Debug, PartialEq, Eq, Structural)]
pub enum ReadStep {
    /// A record whose payload is the `len` bytes at `offset` of the data region.
    Record { offset: u32, len: u32 },
    /// An empty record: the producer is alive; nothing to deliver.
    Heartbeat,
    /// No record published yet at the reader's position.
    Nothing,
    /// The reader is exhausted, for this reason.
    Failed(ReadError),
}

/// The state of a reader.
pub struct ReaderView {
    pub capacity: u32,
    pub max_msg_len: u32,
    pub position: u32,
    pub failure: Option<ReadError>,
}

/// A reader's new state and step, after loading `marker` at its position.
pub open spec fn spec_step(s: ReaderView, marker: u64) -> (ReaderView, ReadStep) {
    if s.failure is Some {
        (s, ReadStep::Failed(s.failure->0))
    } else {
        match spec_decode_marker(marker, s.max_msg_len) {
            Marker::Record(len) => if s.position + record_size(len as int) > s.capacity {
                (ReaderView { failure: Some(ReadError::Failed), ..s }, ReadStep::Failed(ReadError::Failed))
            } else if len == 0 {
                (ReaderView { position: (s.position + 8) as u32, ..s }, ReadStep::Heartbeat)
            } else {
                (
                    ReaderView { position: (s.position + record_size(len as int)) as u32, ..s },
                    ReadStep::Record { offset: (s.position + 8) as u32, len },
                )
            },
            Marker::Watermark => (s, ReadStep::Nothing),
            Marker::Close => (ReaderView { failure: Some(ReadError::Closed), ..s }, ReadStep::Failed(ReadError::Closed)),
            Marker::Corrupt => (ReaderView { failure: Some(ReadError::Failed), ..s }, ReadStep::Failed(ReadError::Failed)),
        }
    }
}

/// Exhaustion is final: once a step fails, every later step, whatever marker it
/// loads, reports the same error and leaves the reader as it is.
pub proof fn lemma_exhaustion_latches(s: ReaderView, first: u64, later: u64)
    requires
        spec_step(s, first).1 is Failed,
    ensures
        spec_step(spec_step(s, first).0, later) == (spec_step(s, first).0, spec_step(s, first).1),
        spec_step(s, first).0.failure == Some(spec_step(s, first).1->Failed_0),
{
}

/// A cursor over the records of a channel's data region.
pub struct ChannelReader {
    metadata: Metadata,
    read_index: u32,
    failure: Option<ReadError>,
}

impl View for ChannelReader {
    type V = ReaderView;

    closed spec fn view(&self) -> ReaderView {
        ReaderView {
            capacity: self.metadata@.capacity,
            max_msg_len: self.metadata@.max_msg_len,
            position: self.read_index,
            failure: self.failure,
        }
    }
}

impl ChannelReader {
    /// The reader's invariant: valid metadata and an aligned position inside the region.
    pub closed spec fn wf(&self) -> bool {
        &&& valid_metadata(self.metadata@)
        &&& self.read_index % 8 == 0
        &&& self.read_index <= self.metadata@.capacity
    }

    /// The channel's metadata.
    pub closed spec fn spec_metadata(&self) -> crate::metadata::MetadataView {
        self.metadata@
    }

    /// A reader at the start of the data region.
    pub fn new(metadata: Metadata) -> (r: ChannelReader)
        requires
            valid_metadata(metadata@),
        ensures
            r.wf(),
            r.spec_metadata() == metadata@,
            r@ == (ReaderView {
                capacity: metadata@.capacity,
                max_msg_len: metadata@.max_msg_len,
                position: 0,
                failure: None,
            }),
    {
        ChannelReader { metadata, read_index: 0, failure: None }
    }

    /// The channel's metadata.
    pub fn metadata(&self) -> (r: &Metadata)
        ensures
            r@ == self.spec_metadata(),
    {
        &self.metadata
    }

    /// The read position: the bytes consumed so far, headers and padding included.
    /// The next marker to load is at this offset of the data region; it and the 8
    /// bytes from it always lie within the data region and its footer.
    pub fn position(&self) -> (r: u32)
        requires
            self.wf(),
        ensures
            r == self@.position,
            r + 8 <= self@.capacity + FOOTER_LEN,
    {
        self.read_index
    }

    /// Why the reader is exhausted, if it is.
    pub fn exhausted(&self) -> (r: Option<ReadError>)
        ensures
            r == self@.failure,
    {
        self.failure
    }

    /// Takes the marker loaded at the reader's position and says what it means.
    ///
    /// A length marker yields the record (or a heartbeat, when it is zero) and moves
    /// past it; a record that would overrun the data region is a corruption.
    /// `WATERMARK` yields nothing and stays; `CLOSE` exhausts the reader with `Closed`;
    /// any other value with `Failed`. Once exhausted, the reader reports the same
    /// error on every call and never moves again.
    pub fn on_marker(&mut self, marker: u64) -> (r: ReadStep)
        requires
            old(self).wf(),
        ensures
            final(self).wf(),
            final(self).spec_metadata() == old(self).spec_metadata(),
            (final(self)@, r) == spec_step(old(self)@, marker),
    {
        if let Some(e) = self.failure {
            return ReadStep::Failed(e);
        }
        match decode_marker(marker, self.metadata.max_msg_len()) {
            Marker::Record(len) => {
                let room = self.metadata.capacity() - self.read_index;
                let size = align(len + REC_HEADER_LEN);
                if size > room {
                    self.failure = Some(ReadError::Failed);
                    return ReadStep::Failed(ReadError::Failed);
                }
                let offset = self.read_index + REC_HEADER_LEN;
                self.read_index = self.read_index + size;
                if len == 0 {
                    ReadStep::Heartbeat
                } else {
                    ReadStep::Record { offset, len }
                }
            },
            Marker::Watermark => ReadStep::Nothing,
            Marker::Close => {
                self.failure = Some(ReadError::Closed);
                ReadStep::Failed(ReadError::Closed)
            },
            Marker::Corrupt => {
                self.failure = Some(ReadError::Failed);
                ReadStep::Failed(ReadError::Failed)
            },
        }
    }
}

} // verus!

verus! {

/// The expiration value of a timeout reader that is not waiting.
pub const END_OF_TIME: u64 = u64::MAX;

/// The state of a timeout reader, apart from the reader it decorates.
pub struct TimeoutView {
    pub tick: TickUnit,
    pub interval: u64,
    pub expiration: u64,
    pub expired: Option<ReadError>,
}

/// A timeout reader's new state and verdict when its inner reader had nothing, at time `now`:
/// the first such poll sets the deadline `now + interval` (saturating); a later one at or past
/// the deadline expires the reader.
pub open spec fn spec_idle(s: TimeoutView, now: u64) -> (TimeoutView, Option<ReadError>) {
    if s.expired is Some {
        (s, s.expired)
    } else if s.expiration == END_OF_TIME {
        let deadline = if now as int + s.interval as int > u64::MAX as int {
            u64::MAX
        } else {
            (now + s.interval) as u64
        };
        (TimeoutView { expiration: deadline, ..s }, None)
    } else if s.expiration <= now {
        (
            TimeoutView { expired: Some(ReadError::Timeout(s.expiration)), ..s },
            Some(ReadError::Timeout(s.expiration)),
        )
    } else {
        (s, None)
    }
}

/// A timeout, once reported, is final: every later idle poll, at any time,
/// reports it again and changes nothing.
pub proof fn lemma_timeout_latches(s: TimeoutView, first: u64, later: u64)
    requires
        spec_idle(s, first).1 is Some,
    ensures
        spec_idle(spec_idle(s, first).0, later) == spec_idle(s, first),
{
}

/// Decorates a reader with the channel's timeout: once the inner reader has had
/// nothing to deliver for `timeout` ticks in a row, the channel is taken as
/// abandoned and the reader exhausted with `Timeout(deadline)`.
pub struct TimeoutReader<R: Reader> {
    inner: R,
    tick: TickUnit,
    to_interval: u64,
    expiration: u64,
    expired: Option<ReadError>,
}

impl<R: Reader> View for TimeoutReader<R> {
    type V = TimeoutView;

    closed spec fn view(&self) -> TimeoutView {
        TimeoutView {
            tick: self.tick,
            interval: self.to_interval,
            expiration: self.expiration,
            expired: self.expired,
        }
    }
}

impl<R: Reader> TimeoutReader<R> {
    /// The decorated reader.
    pub closed spec fn inner(&self) -> R {
        self.inner
    }

    /// Decorates `reader` with a timeout of `timeout` ticks of `tick`.
    pub fn new(reader: R, tick: TickUnit, timeout: u64) -> (r: TimeoutReader<R>)
        ensures
            r.inner() == reader,
            r@ == (TimeoutView { tick, interval: timeout, expiration: END_OF_TIME, expired: None }),
    {
        TimeoutReader {
            inner: reader,
            tick,
            to_interval: timeout,
            expiration: END_OF_TIME,
            expired: None,
        }
    }

    /// Accounts for a poll on which the inner reader had nothing, at time `now`
    /// in the reader's tick unit. Returns the timeout error once the deadline has passed.
    pub fn on_idle(&mut self, now: u64) -> (r: Option<ReadError>)
        ensures
            (final(self)@, r) == spec_idle(old(self)@, now),
            final(self).inner() == old(self).inner(),
    {
        if self.expired.is_some() {
            return self.expired;
        }
        if self.expiration == END_OF_TIME {
            self.expiration = now.saturating_add(self.to_interval);
            None
        } else if self.expiration <= now {
            self.expired = Some(ReadError::Timeout(self.expiration));
            self.expired
        } else {
            None
        }
    }

    /// Accounts for a record delivered by the inner reader: the reader stops waiting.
    pub fn on_record(&mut self)
        ensures
            final(self)@ == (TimeoutView { expiration: END_OF_TIME, ..old(self)@ }),
            final(self).inner() == old(self).inner(),
    {
        self.expiration = END_OF_TIME;
    }

    /// Applies the timeout policy to what the inner reader returned, `now` being the
    /// time in the reader's tick unit (used only when the inner reader had nothing).
    /// An error passes through; a record passes through and stops the wait; nothing
    /// starts the wait, keeps it, or, at or past the deadline, expires the reader.
    pub fn after_inner<'a>(&mut self, res: Result<Option<&'a [u8]>, ReadError>, now: u64) -> (r: Result<
        Option<&'a [u8]>,
        ReadError,
    >)
        ensures
            final(self).inner() == old(self).inner(),
            res is Err ==> r == res && final(self)@ == old(self)@,
            res matches Ok(Some(_)) ==> r == res && final(self)@ == (TimeoutView {
                expiration: END_OF_TIME,
                ..old(self)@
            }),
            res matches Ok(None) ==> final(self)@ == spec_idle(old(self)@, now).0 && match spec_idle(
                old(self)@,
                now,
            ).1 {
                Some(e) => r == Err::<Option<&'a [u8]>, ReadError>(e),
                None => r == Ok::<Option<&'a [u8]>, ReadError>(None),
            },
    {
        match res {
            Err(e) => Err(e),
            Ok(None) => match self.on_idle(now) {
                Some(e) => Err(e),
                None => Ok(None),
            },
            Ok(Some(rec)) => {
                self.on_record();
                Ok(Some(rec))
            },
        }
    }
}

impl<R: Reader> Reader for TimeoutReader<R> {
    open spec fn spec_exhausted(&self) -> Option<ReadError> {
        if self.inner().spec_exhausted() is Some {
            self.inner().spec_exhausted()
        } else {
            self@.expired
        }
    }

    /// Reads through the inner reader; when it has nothing, samples the clock and
    /// applies the timeout policy (see `after_inner`).
    fn try_read<'a>(&mut self) -> (r: Result<Option<&'a [u8]>, ReadError>) {
        if let Some(err) = self.exhausted() {
            return Err(err);
        }
        let res = self.inner.try_read();
        let now = match res {
            Ok(None) => self.tick.nix_time(),
            _ => 0,
        };
        self.after_inner(res, now)
    }

    fn exhausted(&self) -> (r: Option<ReadError>) {
        match self.inner.exhausted() {
            Some(e) => Some(e),
            None => self.expired,
        }
    }
}

/// One item of a non-blocking iteration over a channel.
#[derive(Debug)]
pub enum ReadResult<'a> {
    /// A record's payload.
    Record(&'a [u8]),
    /// Nothing to deliver yet.
    Nothing,
    /// The read failed; the reader is exhausted.
    Failed(ReadError),
}

/// The iteration item for a read result: a non-empty record is delivered, an empty
/// one (a heartbeat) and no record are `Nothing`, an error is `Failed`.
pub fn to_item<'a>(res: Result<Option<&'a [u8]>, ReadError>) -> (r: ReadResult<'a>)
    ensures
        match res {
            Ok(None) => r is Nothing,
            Ok(Some(rec)) => if rec@.len() == 0 {
                r is Nothing
            } else {
                r == ReadResult::Record(rec)
            },
            Err(e) => r == ReadResult::<'a>::Failed(e),
        },
{
    match res {
        Ok(None) => ReadResult::Nothing,
        Ok(Some(rec)) => if rec.len() == 0 {
            ReadResult::Nothing
        } else {
            ReadResult::Record(rec)
        },
        Err(fault) => ReadResult::Failed(fault),
    }
}

/// One step of a non-blocking iteration: `None`, with the reader left as it was,
/// once the reader is exhausted; otherwise the item (`to_item`) of one read.
pub fn poll<'a, R: Reader>(reader: &mut R) -> (r: Option<ReadResult<'a>>)
    ensures
        old(reader).spec_exhausted() is Some ==> r is None && *final(reader) == *old(reader),
        old(reader).spec_exhausted() is None ==> r is Some,
        r matches Some(ReadResult::Failed(e)) ==> final(reader).spec_exhausted() == Some(e),
        r matches Some(ReadResult::Record(rec)) ==> rec@.len() > 0,
{
    if reader.exhausted().is_some() {
        return None;
    }
    let res = reader.try_read();
    Some(to_item(res))
}

/// The size hint of a non-blocking iteration: `(0, None)` while records may still
/// come, `(0, Some(0))` once the reader is exhausted.
pub fn remaining_hint<R: Reader>(reader: &R) -> (r: (usize, Option<usize>))
    ensures
        r == if reader.spec_exhausted() is None {
            (0usize, None::<usize>)
        } else {
            (0usize, Some(0usize))
        },
{
    if reader.exhausted().is_none() {
        (0, None)
    } else {
        (0, Some(0))
    }
}

} // verus!
