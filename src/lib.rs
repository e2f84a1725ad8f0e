//! A persistent, single-producer / many-consumer message channel whose
//! records live in a shared byte region.
//!
//! The library holds the channel format and the producer / consumer
//! protocol: the metadata block, the record framing, the write and read
//! state machines, the timeout policy and the handler pipeline that frames
//! each record. Mapping the region into memory is left to the caller.
pub mod framing;
pub mod version;
pub mod tick;
pub mod api;
pub mod metadata;
pub mod storage;
pub mod sink;
pub mod handlers;
pub mod writer;
pub mod reader;
pub mod image;
pub mod protocol;
pub mod codecs;
pub mod retry;
