//! The encoding and handler protocol of a write, and the error surfaces of the channel.
use crate::sink::{sink_extends, sink_step, KekWrite};
use vstd::prelude::*;

verus! {

/// The standard I/O error, carried opaquely by write results.
#[verifier::external_type_specification]
#[verifier::external_body]
pub struct ExIoError(std::io::Error);

/// Errors met while creating or opening a channel.
#[derive(Debug)]
pub enum ChannelError {
    /// The stored signature differs from the channel signature.
    InvalidSignature {
        /// The channel signature.
        expected: u64,
        /// The value found in the storage.
        actual: u64,
    },
    /// The storage was written by a newer, incompatible version.
    IncompatibleVersion {
        /// The version this library writes.
        expected: u64,
        /// The version found in the storage.
        actual: u64,
    },
    /// The capacity is too small or not 8-byte aligned.
    InvalidCapacity {
        /// The capacity found.
        capacity: u32,
        /// Why it was refused.
        msg: &'static str,
    },
    /// The maximum message length is too large or not 8-byte aligned.
    InvalidMaxMessageLength {
        /// The maximum message length found.
        msg_len: u32,
        /// Why it was refused.
        msg: &'static str,
    },
    /// The storage does not exist.
    StorageNotFound {
        /// The file expected to back the channel.
        file_name: String,
    },
    /// The storage is still being initialised.
    StorageNotReady {
        /// The file that backs the channel.
        file_name: String,
    },
    /// The storage already exists.
    StorageAlreadyExists {
        /// The file that backs the channel.
        file_name: String,
    },
    /// The storage cannot be accessed.
    CouldNotAccessStorage {
        /// The file that backs the channel.
        file_name: String,
    },
    /// Mapping the storage to memory failed.
    MemoryMappingFailed {
        /// Why it failed.
        reason: String,
    },
    /// Any other failure while accessing the storage.
    AccessError {
        /// Why it failed.
        reason: String,
    },
}

/// Errors of a write operation.
#[derive(Debug)]
pub enum WriteError {
    /// No space is left in the channel for any record: the channel is full for good.
    ChannelFull,
    /// The record is larger than the maximum record size or the space left.
    NoSpaceForRecord,
    /// Encoding the record failed.
    EncodingError(std::io::Error),
    /// The writer is held by someone else; the write may be tried again.
    Wait,
}

/// Errors of a read operation. Once reported, a reader reports it on every later read.
#[derive(Clone, Copy, Debug, Eq, Hash, PartialEq, Structural)]
pub enum ReadError {
    /// The channel holds a value that no writer stores: it is corrupted.
    Failed,
    /// The writer was silent for longer than the channel's timeout; holds the deadline passed.
    Timeout(u64),
    /// The writer closed the channel.
    Closed,
    /// The reader reached the end of the data region.
    ChannelFull,
}

/// A value that can be written into a channel as a record body.
pub trait Encodable {
    /// The bytes that encode the value.
    spec fn encoding(&self) -> Seq<u8>;

    /// Writes the encoding of the value into `write`.
    fn encode(&self, write: &mut KekWrite) -> (r: Result<usize, std::io::Error>)
        ensures
            sink_step(old(write)@, final(write)@, self.encoding()),
    ;
}

impl<'a> Encodable for &'a [u8] {
    open spec fn encoding(&self) -> Seq<u8> {
        self@
    }

    fn encode(&self, write: &mut KekWrite) -> (r: Result<usize, std::io::Error>) {
        write.write(*self)
    }
}

impl Encodable for Vec<u8> {
    open spec fn encoding(&self) -> Seq<u8> {
        self@
    }

    fn encode(&self, write: &mut KekWrite) -> (r: Result<usize, std::io::Error>) {
        write.write(self.as_slice())
    }
}

impl Encodable for String {
    open spec fn encoding(&self) -> Seq<u8> {
        vstd::utf8::encode_utf8(self@)
    }

    fn encode(&self, write: &mut KekWrite) -> (r: Result<usize, std::io::Error>) {
        write.write(self.as_str().as_bytes())
    }
}

/// A stage of the pipeline that frames each record: it may write before the
/// record body (`incoming`), after it (`outgoing`), or replace the whole action
/// (`handle`). A stage can only append to the sink.
pub trait Handler {
    /// Runs before the record body is written.
    fn incoming<E: Encodable>(&mut self, data: &E, write: &mut KekWrite) -> (r: Result<
        usize,
        std::io::Error,
    >)
        ensures
            sink_extends(old(write)@, final(write)@),
    {
        Ok(0)
    }

    /// Runs after the record body is written.
    fn outgoing<E: Encodable>(&mut self, data: &E, write: &mut KekWrite) -> (r: Result<
        usize,
        std::io::Error,
    >)
        ensures
            sink_extends(old(write)@, final(write)@),
    {
        Ok(0)
    }

    /// Writes a record: by default `incoming`, then `outgoing` unless it failed.
    fn handle<E: Encodable>(&mut self, data: &E, write: &mut KekWrite) -> (r: Result<
        usize,
        std::io::Error,
    >)
        ensures
            sink_extends(old(write)@, final(write)@),
    {
        match self.incoming(data, write) {
            Ok(_) => self.outgoing(data, write),
            Err(e) => Err(e),
        }
    }
}

/// The handler at the bottom of a chain: it writes the record's encoding.
pub struct EncoderHandler {}

impl Default for EncoderHandler {
    fn default() -> (r: EncoderHandler)
        ensures
            r == (EncoderHandler {  }),
    {
        EncoderHandler {  }
    }
}

impl Handler for EncoderHandler {
    /// Writes exactly the encoding of `data`, as one write.
    fn handle<E: Encodable>(&mut self, data: &E, write: &mut KekWrite) -> (r: Result<
        usize,
        std::io::Error,
    >)
        ensures
            sink_step(old(write)@, final(write)@, data.encoding()),
    {
        data.encode(write)
    }
}

/// Reads records from a channel without blocking. Once a read fails, the reader
/// is exhausted: every later read fails with the same error.
pub trait Reader: Sized {
    /// Why the reader is exhausted, if it is. Outside verified code this is an
    /// ordinary method, to be defined as `exhausted` is.
    spec fn spec_exhausted(&self) -> Option<ReadError>;

    /// Reads the next record if one is published: `Ok(None)` when none is yet,
    /// `Ok(Some(&[]))` for a heartbeat.
    fn try_read<'a>(&mut self) -> (r: Result<Option<&'a [u8]>, ReadError>)
        ensures
            old(self).spec_exhausted() is Some ==> r == Err::<Option<&'a [u8]>, ReadError>(
                old(self).spec_exhausted()->0,
            ) && *final(self) == *old(self),
            r is Err ==> final(self).spec_exhausted() == Some(r->Err_0),
            r is Ok ==> final(self).spec_exhausted() is None,
    ;

    /// Why the reader is exhausted, or `None` while records may still come.
    fn exhausted(&self) -> (r: Option<ReadError>)
        ensures
            r == self.spec_exhausted(),
    ;
}

/// Writes records into a channel. A channel has one writer; several threads may
/// share it through a cooperating decorator.
pub trait Writer {
    /// Writes `data` as one record. Returns the bytes the record takes in the channel.
    fn write<E: Encodable>(&mut self, data: &E) -> Result<u32, WriteError>;

    /// Flushes whatever backs the writer.
    fn flush(&mut self) -> Result<(), std::io::Error> {
        Ok(())
    }
}

} // verus!
