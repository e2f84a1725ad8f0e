//! The record stream as bytes: how a publication lands in the data region and
//! how a marker is read back from it.
use crate::framing::{record_size, CLOSE, WATERMARK};
use crate::metadata::le64_at;
use crate::writer::Publication;
use vstd::bytes::*;
use vstd::prelude::*;

verus! {

/// `img` with `bytes` written from offset `off`.
pub open spec fn put(img: Seq<u8>, off: int, bytes: Seq<u8>) -> Seq<u8> {
    img.subrange(0, off) + bytes + img.subrange(off + bytes.len(), img.len() as int)
}

/// The marker stored at `off`.
pub open spec fn marker_at(img: Seq<u8>, off: int) -> u64 {
    le64_at(img, off)
}

/// The data region after publication `p` with body `payload`: the payload after the
/// header, `WATERMARK` after the record, then the length in the header.
pub open spec fn spec_publish(img: Seq<u8>, p: Publication, payload: Seq<u8>) -> Seq<u8> {
    let with_body = put(img, p.offset + 8, payload);
    let with_frontier = put(with_body, p.offset + p.size, spec_u64_to_le_bytes(WATERMARK));
    put(with_frontier, p.offset as int, spec_u64_to_le_bytes(p.len as u64))
}

/// Publication `p` fits in a region of `len` bytes, with its trailing watermark.
pub open spec fn fits(p: Publication, len: int) -> bool {
    p.offset as int + p.size as int + 8 <= len
}

/// Copies `bytes` into `img` from offset `off`.
pub fn put_bytes(img: &mut [u8], off: usize, bytes: &[u8])
    requires
        off + bytes@.len() <= old(img)@.len(),
    ensures
        final(img)@ == put(old(img)@, off as int, bytes@),
{
    let n = img.len();
    let mut i: usize = 0;
    while i < bytes.len()
        invariant
            n == img@.len(),
            0 <= i <= bytes@.len(),
            off + bytes@.len() <= old(img)@.len(),
            img@.len() == old(img)@.len(),
            forall|k: int| 0 <= k < off ==> img@[k] == old(img)@[k],
            forall|k: int| off <= k < off + i ==> img@[k] == bytes@[k - off],
            forall|k: int| off + i <= k < img@.len() ==> img@[k] == old(img)@[k],
        decreases bytes@.len() - i,
    {
        img[off + i] = bytes[i];
        i = i + 1;
    }
    assert(img@ =~= put(old(img)@, off as int, bytes@));
}

/// Stores marker `value` at offset `off`.
pub fn store_marker(img: &mut [u8], off: usize, value: u64)
    requires
        off + 8 <= old(img)@.len(),
    ensures
        final(img)@ == put(old(img)@, off as int, spec_u64_to_le_bytes(value)),
        marker_at(final(img)@, off as int) == value,
{
    let bytes = u64_to_le_bytes(value);
    put_bytes(img, off, bytes.as_slice());
    proof {
        lemma_auto_spec_u64_to_from_le_bytes();
        assert(img@.subrange(off as int, off + 8) =~= spec_u64_to_le_bytes(value));
    }
}

/// Loads the marker at offset `off`.
pub fn load_marker(img: &[u8], off: usize) -> (r: u64)
    requires
        off + 8 <= img@.len(),
    ensures
        r == marker_at(img@, off as int),
{
    let n = img.len();
    assert(off + 8 <= n);
    u64_from_le_bytes(vstd::slice::slice_subrange(img, off, off + 8))
}

/// One atomic store of a marker: `value` at `offset` of the data region.
#[derive(Clone, Copy, Debug, PartialEq, Eq, Structural)]
pub struct MarkerStore {
    pub offset: u32,
    pub value: u64,
}

/// The marker stores that publish `p` once its body is in place, in the order they
/// must be made (each with release ordering): first `WATERMARK` after the record,
/// then the record's length in its header.
pub fn publication_stores(p: Publication) -> (r: (MarkerStore, MarkerStore))
    requires
        p.offset + p.size <= u32::MAX,
    ensures
        r.0 == (MarkerStore { offset: (p.offset + p.size) as u32, value: WATERMARK }),
        r.1 == (MarkerStore { offset: p.offset, value: p.len as u64 }),
{
    (
        MarkerStore { offset: p.offset + p.size, value: WATERMARK },
        MarkerStore { offset: p.offset, value: p.len as u64 },
    )
}

/// Performs publication `p` with body `payload` on the data region `img`, in the
/// order that keeps a reader from seeing a partial record: body, then the next
/// `WATERMARK`, then the length.
pub fn publish(img: &mut [u8], p: Publication, payload: &[u8])
    requires
        fits(p, old(img)@.len() as int),
        p.offset + p.size <= u32::MAX,
        payload@.len() == p.len,
        p.size == record_size(p.len as int),
    ensures
        final(img)@ == spec_publish(old(img)@, p, payload@),
{
    let n = img.len();
    assert(p.offset as int + p.size as int + 8 <= n);
    put_bytes(img, p.offset as usize + 8, payload);
    let (frontier, header) = publication_stores(p);
    store_marker(img, frontier.offset as usize, frontier.value);
    store_marker(img, header.offset as usize, header.value);
}

/// Stores `CLOSE` at offset `off`.
pub fn publish_close(img: &mut [u8], off: u32)
    requires
        off + 8 <= old(img)@.len(),
    ensures
        final(img)@ == put(old(img)@, off as int, spec_u64_to_le_bytes(CLOSE)),
        marker_at(final(img)@, off as int) == CLOSE,
{
    store_marker(img, off as usize, CLOSE);
}

/// Writing bytes at `off` changes no byte outside `[off, off + bytes.len())`.
pub proof fn lemma_put_outside(img: Seq<u8>, off: int, bytes: Seq<u8>, k: int)
    requires
        0 <= off,
        off + bytes.len() <= img.len(),
        0 <= k < img.len(),
        k < off || off + bytes.len() <= k,
    ensures
        put(img, off, bytes).len() == img.len(),
        put(img, off, bytes)[k] == img[k],
{
}

/// Reading back the bytes just written at `off` gives them.
pub proof fn lemma_put_inside(img: Seq<u8>, off: int, bytes: Seq<u8>)
    requires
        0 <= off,
        off + bytes.len() <= img.len(),
    ensures
        put(img, off, bytes).len() == img.len(),
        put(img, off, bytes).subrange(off, off + bytes.len()) == bytes,
{
    assert(put(img, off, bytes).subrange(off, off + bytes.len()) =~= bytes);
}

} // verus!
