//! The producer side of a channel: where each record goes and when the channel is full.
//!
//! The writer decides; the caller owns the mapped region and performs each
//! [`Publication`] it is handed: it copies the payload after the record header,
//! stores `WATERMARK` after the record, and only then stores the record's length
//! in its header.
use crate::api::{Encodable, Handler, WriteError};
use crate::framing::{align, record_size, FOOTER_LEN, REC_HEADER_LEN};
use crate::metadata::{valid_metadata, Metadata};
use crate::sink::{sink_extends, KekWrite, SinkView};
use vstd::prelude::*;

verus! {

/// A record that the writer has laid out and that must now be stored.
#[derive(Clone, Copy, Debug, PartialEq, Eq, Structural)]
pub struct Publication {
    /// Offset of the record header in the data region.
    pub offset: u32,
    /// Payload length, stored as the record's marker.
    pub len: u32,
    /// Bytes the record takes: `8 + len` rounded up to a multiple of 8.
    /// `WATERMARK` goes at `offset + size`.
    pub size: u32,
}

/// Space left for records at write offset `w` in a data region of `capacity` bytes.
pub open spec fn spec_available(capacity: u32, w: u32) -> int {
    let d = capacity as int - w as int;
    d - d % 8
}

/// The state of a writer.
pub struct WriterView {
    pub metadata: crate::metadata::MetadataView,
    pub write_offset: u32,
    pub closed: bool,
}

/// Appends records to a channel's data region, one at a time. Each record is
/// produced by the handler pipeline into a sink bounded by the space left and the
/// maximum record size.
pub struct ChannelWriter<H: Handler> {
    metadata: Metadata,
    write_offset: u32,
    write: KekWrite,
    rec_handler: H,
    closed: bool,
}

impl<H: Handler> View for ChannelWriter<H> {
    type V = WriterView;

    closed spec fn view(&self) -> WriterView {
        WriterView {
            metadata: self.metadata@,
            write_offset: self.write_offset,
            closed: self.closed,
        }
    }
}

impl<H: Handler> ChannelWriter<H> {
    /// The writer's invariant: valid metadata, an aligned write offset inside the region.
    pub open spec fn wf(&self) -> bool {
        &&& valid_metadata(self@.metadata)
        &&& self@.write_offset % 8 == 0
        &&& self@.write_offset <= self@.metadata.capacity
    }

    /// The payload of the last record laid out: what the pipeline wrote into the sink.
    pub open spec fn spec_payload(&self) -> Seq<u8> {
        self.spec_sink().bytes
    }

    /// The sink that the handler pipeline wrote the last record into.
    pub closed spec fn spec_sink(&self) -> SinkView {
        self.write@
    }

    /// A writer at the start of an empty data region. The caller stores `WATERMARK`
    /// at offset 0 before any reader may look.
    pub fn new(metadata: Metadata, rec_handler: H) -> (r: ChannelWriter<H>)
        requires
            valid_metadata(metadata@),
        ensures
            r.wf(),
            r@.metadata == metadata@,
            r@.write_offset == 0,
            !r@.closed,
    {
        ChannelWriter {
            metadata,
            write_offset: 0,
            write: KekWrite::new(0),
            rec_handler,
            closed: false,
        }
    }

    /// Space left for records, rounded down to the alignment (zero once closed).
    pub fn available(&self) -> (r: u32)
        requires
            self.wf(),
        ensures
            r == if self@.closed {
                0
            } else {
                spec_available(self@.metadata.capacity, self@.write_offset)
            },
    {
        if self.closed {
            return 0;
        }
        let d = self.metadata.capacity() - self.write_offset;
        assert(d & 0xFFFF_FFF8 == d - d % 8) by (bit_vector);
        d & 0xFFFF_FFF8
    }

    /// Bytes written into the data region so far.
    pub fn write_offset(&self) -> (r: u32)
        ensures
            r == self@.write_offset,
    {
        self.write_offset
    }

    /// The channel's metadata.
    pub fn metadata(&self) -> (r: &Metadata)
        ensures
            r@ == self@.metadata,
    {
        &self.metadata
    }

    /// The payload of the last record laid out by `write`.
    pub fn payload(&self) -> (r: &[u8])
        ensures
            r@ == self.spec_payload(),
    {
        self.write.bytes()
    }

    /// Tells whether the writer was closed.
    pub fn is_closed(&self) -> (r: bool)
        ensures
            r == self@.closed,
    {
        self.closed
    }

    /// Lays out the next record: the handler pipeline encodes `data` into a sink that
    /// takes at most `min(max_msg_len, available - 8)` bytes.
    ///
    /// Fails with `ChannelFull` when no more than 8 bytes are left (or the writer was
    /// closed), with `NoSpaceForRecord` when the encoding overflowed the sink, and with
    /// `EncodingError` when the pipeline failed otherwise. A failure leaves the write
    /// offset as it was. On success the returned publication starts at the old write
    /// offset, which moves past the record; `payload` then holds the record body.
    /// It is `prepare`, the pipeline's `handle` on the prepared sink, then `finish`;
    /// on a full channel the pipeline is not run and the writer is left as it was.
    pub fn write<E: Encodable>(&mut self, data: &E) -> (r: Result<Publication, WriteError>)
        requires
            old(self).wf(),
        ensures
            final(self).wf(),
            final(self)@.metadata == old(self)@.metadata,
            final(self)@.closed == old(self)@.closed,
            (r is Err && r->Err_0 is ChannelFull) <==> (old(self)@.closed || spec_available(
                old(self)@.metadata.capacity,
                old(self)@.write_offset,
            ) <= 8),
            r is Err ==> final(self)@.write_offset == old(self)@.write_offset,
            (r matches Err(WriteError::ChannelFull)) ==> *final(self) == *old(self),
            !(old(self)@.closed || spec_available(old(self)@.metadata.capacity, old(self)@.write_offset)
                <= 8) ==> sink_extends(
                SinkView {
                    bytes: Seq::empty(),
                    max_size: old(self).spec_record_room() as nat,
                    failed: false,
                },
                final(self).spec_sink(),
            ),
            !old(self)@.closed && spec_available(old(self)@.metadata.capacity, old(self)@.write_offset)
                > 8 ==> final(self).spec_sink().max_size == if old(self)@.metadata.max_msg_len
                < spec_available(old(self)@.metadata.capacity, old(self)@.write_offset) - 8 {
                old(self)@.metadata.max_msg_len as int
            } else {
                spec_available(old(self)@.metadata.capacity, old(self)@.write_offset) - 8
            },
            (r is Err && r->Err_0 is NoSpaceForRecord) <==> (!old(self)@.closed && spec_available(
                old(self)@.metadata.capacity,
                old(self)@.write_offset,
            ) > 8 && final(self).spec_sink().failed),
            r is Ok ==> {
                let p = r->Ok_0;
                &&& p.offset == old(self)@.write_offset
                &&& p.len == final(self).spec_payload().len()
                &&& p.len <= old(self)@.metadata.max_msg_len
                &&& p.len + 8 <= spec_available(old(self)@.metadata.capacity, old(self)@.write_offset)
                &&& p.size == record_size(p.len as int)
                &&& p.offset + p.size <= old(self)@.metadata.capacity
                &&& final(self)@.write_offset == old(self)@.write_offset + p.size
            },
    {
        match self.prepare() {
            Err(e) => Err(e),
            Ok(()) => {
                let res = self.rec_handler.handle(data, &mut self.write);
                self.finish(res)
            },
        }
    }

    /// The bound of the sink a record is encoded into: `min(max_msg_len, available - 8)`.
    pub open spec fn spec_record_room(&self) -> int {
        let available = spec_available(self@.metadata.capacity, self@.write_offset);
        if self@.metadata.max_msg_len < available - 8 {
            self@.metadata.max_msg_len as int
        } else {
            available - 8
        }
    }

    /// First step of `write`: fails with `ChannelFull` when the writer is closed or no
    /// more than 8 bytes are left; otherwise empties the sink and bounds it by
    /// `min(max_msg_len, available - 8)`, ready for the handler pipeline.
    pub fn prepare(&mut self) -> (r: Result<(), WriteError>)
        requires
            old(self).wf(),
        ensures
            final(self).wf(),
            final(self)@ == old(self)@,
            (old(self)@.closed || spec_available(old(self)@.metadata.capacity, old(self)@.write_offset)
                <= 8) ==> (r matches Err(WriteError::ChannelFull)) && *final(self) == *old(self),
            !(old(self)@.closed || spec_available(old(self)@.metadata.capacity, old(self)@.write_offset)
                <= 8) ==> r is Ok && final(self).spec_sink() == (SinkView {
                bytes: Seq::empty(),
                max_size: old(self).spec_record_room() as nat,
                failed: false,
            }),
    {
        let available = self.available();
        if available <= REC_HEADER_LEN {
            return Err(WriteError::ChannelFull);
        }
        let room = available - REC_HEADER_LEN;
        let max_msg_len = self.metadata.max_msg_len();
        let len = if max_msg_len < room {
            max_msg_len
        } else {
            room
        };
        self.write.reset(len as usize);
        Ok(())
    }

    /// Last step of `write`: turns what the handler pipeline returned into the outcome.
    /// An overflowed sink is `NoSpaceForRecord`; otherwise a pipeline error is
    /// `EncodingError` with that error; otherwise the sink's bytes are the record,
    /// laid out at the write offset, which moves past it.
    pub fn finish(&mut self, res: Result<usize, std::io::Error>) -> (r: Result<Publication, WriteError>)
        requires
            old(self).wf(),
            !old(self)@.closed,
            old(self).spec_sink().max_size <= old(self).spec_record_room(),
            spec_available(old(self)@.metadata.capacity, old(self)@.write_offset) > 8,
        ensures
            final(self).wf(),
            final(self)@.metadata == old(self)@.metadata,
            final(self)@.closed == old(self)@.closed,
            final(self).spec_sink() == old(self).spec_sink(),
            old(self).spec_sink().failed ==> (r matches Err(WriteError::NoSpaceForRecord))
                && final(self)@.write_offset == old(self)@.write_offset,
            !old(self).spec_sink().failed && res is Err ==> r == Err::<Publication, WriteError>(
                WriteError::EncodingError(res->Err_0),
            ) && final(self)@.write_offset == old(self)@.write_offset,
            !old(self).spec_sink().failed && res is Ok ==> {
                let len = old(self).spec_sink().bytes.len();
                &&& len <= old(self).spec_sink().max_size
                &&& r == Ok::<Publication, WriteError>(
                    Publication {
                        offset: old(self)@.write_offset,
                        len: len as u32,
                        size: record_size(len as int) as u32,
                    },
                )
                &&& final(self)@.write_offset == old(self)@.write_offset + record_size(len as int)
            },
    {
        if self.write.failed() {
            return Err(WriteError::NoSpaceForRecord);
        }
        match res {
            Err(e) => Err(WriteError::EncodingError(e)),
            Ok(_) => {
                let available = self.available();
                let total = self.write.total() as u32;
                let size = align(total + REC_HEADER_LEN);
                let offset = self.write_offset;
                assert(size <= available) by {
                    assert(available % 8 == 0);
                }
                self.write_offset = self.write_offset + size;
                Ok(Publication { offset, len: total, size })
            },
        }
    }

    /// Lays out a heartbeat: a record with an empty payload. Fails with `ChannelFull`
    /// when no more than 8 bytes are left or the writer was closed.
    pub fn heartbeat(&mut self) -> (r: Result<Publication, WriteError>)
        requires
            old(self).wf(),
        ensures
            final(self).wf(),
            final(self)@.metadata == old(self)@.metadata,
            final(self)@.closed == old(self)@.closed,
            match r {
                Ok(p) => !old(self)@.closed && spec_available(
                    old(self)@.metadata.capacity,
                    old(self)@.write_offset,
                ) > 8 && p == (Publication { offset: old(self)@.write_offset, len: 0, size: 8 })
                    && final(self)@.write_offset == old(self)@.write_offset + 8
                    && final(self).spec_payload().len() == 0,
                Err(e) => e is ChannelFull && (old(self)@.closed || spec_available(
                    old(self)@.metadata.capacity,
                    old(self)@.write_offset,
                ) <= 8) && final(self)@.write_offset == old(self)@.write_offset,
            },
    {
        let available = self.available();
        if available <= REC_HEADER_LEN {
            return Err(WriteError::ChannelFull);
        }
        self.write.reset(0);
        let offset = self.write_offset;
        self.write_offset = self.write_offset + REC_HEADER_LEN;
        Ok(Publication { offset, len: 0, size: REC_HEADER_LEN })
    }

    /// Closes the writer. Returns the offset where the caller stores `CLOSE`: the
    /// current write offset, which the footer keeps in bounds.
    pub fn close(&mut self) -> (r: u32)
        requires
            old(self).wf(),
        ensures
            final(self).wf(),
            final(self)@.metadata == old(self)@.metadata,
            final(self)@.write_offset == old(self)@.write_offset,
            final(self)@.closed,
            r == old(self)@.write_offset,
            r + 8 <= old(self)@.metadata.capacity + FOOTER_LEN,
    {
        self.closed = true;
        self.write_offset
    }
}

} // verus!
