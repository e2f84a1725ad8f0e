//! Record framing: alignment rules, record headers and the two sentinels.
use vstd::prelude::*;

verus! {

/// Sentinel stored at the first unpublished record slot.
pub const WATERMARK: u64 = 0xFFFF_FFFF_1111_1111;

/// Terminal sentinel: the producer is gone and no record will follow.
pub const CLOSE: u64 = 0xFFFF_FFFF_FFFF_FFFF;

/// Size of a record header (the marker), in bytes.
pub const REC_HEADER_LEN: u32 = 8;

/// Bytes reserved after the data region, so that a sentinel always fits.
pub const FOOTER_LEN: u32 = 32;

/// Alignment of every record header.
pub const REC_ALIGNMENT: u32 = 8;

/// `n` rounded up to the next multiple of 8.
pub open spec fn ceil8(n: int) -> int {
    if n % 8 == 0 { n } else { n + (8 - n % 8) }
}

/// Size that a record with a payload of `len` bytes takes in the data region.
pub open spec fn record_size(len: int) -> int {
    ceil8(REC_HEADER_LEN as int + len)
}

/// Rounds `value` up to the record alignment.
pub fn align(value: u32) -> (r: u32)
    requires
        value <= u32::MAX - 7,
    ensures
        r as int == ceil8(value as int),
        r % 8 == 0,
        value <= r < value + 8,
{
    let v: u32 = value + (REC_ALIGNMENT - 1);
    let r = v & !(REC_ALIGNMENT - 1);
    assert(r == v & !7u32);
    assert((v & !7u32) % 8 == 0 && (v & !7u32) <= v && v - (v & !7u32) < 8) by (bit_vector);
    r
}

/// Tells whether `value` is a multiple of the record alignment.
pub fn is_aligned(value: u32) -> (r: bool)
    ensures
        r == (value % 8 == 0),
{
    let r = value & (REC_ALIGNMENT - 1) == 0;
    assert((value & 7u32 == 0) == (value % 8 == 0)) by (bit_vector);
    r
}

/// What a marker read at a record slot stands for.
#[derive(Clone, Copy, Debug, PartialEq, Eq, Structural)]
pub enum Marker {
    /// A published record whose payload has this many bytes (zero: a heartbeat).
    Record(u32),
    /// The frontier of published data.
    Watermark,
    /// The producer closed the channel.
    Close,
    /// A value that no producer writes: the channel is corrupted.
    Corrupt,
}

/// The meaning of `marker` in a channel whose records hold at most `max_msg_len` bytes.
pub open spec fn spec_decode_marker(marker: u64, max_msg_len: u32) -> Marker {
    if marker <= max_msg_len as u64 {
        Marker::Record(marker as u32)
    } else if marker == WATERMARK {
        Marker::Watermark
    } else if marker == CLOSE {
        Marker::Close
    } else {
        Marker::Corrupt
    }
}

/// Decodes a marker.
pub fn decode_marker(marker: u64, max_msg_len: u32) -> (r: Marker)
    ensures
        r == spec_decode_marker(marker, max_msg_len),
{
    if marker <= max_msg_len as u64 {
        Marker::Record(marker as u32)
    } else if marker == WATERMARK {
        Marker::Watermark
    } else if marker == CLOSE {
        Marker::Close
    } else {
        Marker::Corrupt
    }
}

} // verus!
