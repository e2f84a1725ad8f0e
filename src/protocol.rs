//! Properties of the write and read protocols taken together, over the bytes of
//! the data region.
use crate::framing::{record_size, CLOSE, FOOTER_LEN, WATERMARK};
use crate::image::{fits, lemma_put_inside, lemma_put_outside, marker_at, put, spec_publish};
use crate::reader::{spec_step, ReadStep, ReaderView};
use crate::sink::{sink_step, SinkView};
use crate::writer::{spec_available, Publication};
use vstd::bytes::*;
use vstd::prelude::*;

verus! {

proof fn lemma_marker_of_put(img: Seq<u8>, off: int, value: u64)
    requires
        0 <= off,
        off + 8 <= img.len(),
    ensures
        marker_at(put(img, off, spec_u64_to_le_bytes(value)), off) == value,
        put(img, off, spec_u64_to_le_bytes(value)).len() == img.len(),
{
    lemma_auto_spec_u64_to_from_le_bytes();
    lemma_put_inside(img, off, spec_u64_to_le_bytes(value));
}

proof fn lemma_marker_outside_put(img: Seq<u8>, off: int, bytes: Seq<u8>, at: int)
    requires
        0 <= off,
        off + bytes.len() <= img.len(),
        0 <= at,
        at + 8 <= img.len(),
        at + 8 <= off || off + bytes.len() <= at,
    ensures
        marker_at(put(img, off, bytes), at) == marker_at(img, at),
{
    assert forall|k: int| at <= k < at + 8 implies put(img, off, bytes)[k] == img[k] by {
        lemma_put_outside(img, off, bytes, k);
    }
    assert(put(img, off, bytes).subrange(at, at + 8) =~= img.subrange(at, at + 8));
}

proof fn lemma_publish_len(img: Seq<u8>, p: Publication, payload: Seq<u8>)
    requires
        fits(p, img.len() as int),
        payload.len() == p.len,
        p.size == record_size(p.len as int),
    ensures
        spec_publish(img, p, payload).len() == img.len(),
{
    lemma_auto_spec_u64_to_from_le_bytes();
}

proof fn lemma_last_record(before: Seq<u8>, p: Publication, body: Seq<u8>)
    requires
        fits(p, before.len() as int),
        body.len() == p.len,
        p.size == record_size(p.len as int),
    ensures
        marker_at(spec_publish(before, p, body), p.offset as int) == p.len,
        spec_publish(before, p, body).subrange(p.offset + 8, p.offset + 8 + p.len) == body,
        marker_at(spec_publish(before, p, body), p.offset + p.size) == WATERMARK,
{
    let o = p.offset as int;
    let a = put(before, o + 8, body);
    let b = put(a, o + p.size, spec_u64_to_le_bytes(WATERMARK));
    let after = put(b, o, spec_u64_to_le_bytes(p.len as u64));
    lemma_auto_spec_u64_to_from_le_bytes();
    lemma_put_inside(before, o + 8, body);
    lemma_marker_of_put(a, o + p.size, WATERMARK);
    lemma_marker_of_put(b, o, p.len as u64);
    lemma_marker_outside_put(b, o, spec_u64_to_le_bytes(p.len as u64), o + p.size);
    assert forall|k: int| o + 8 <= k < o + 8 + p.len implies after[k] == a[k] by {
        lemma_put_outside(a, o + p.size, spec_u64_to_le_bytes(WATERMARK), k);
        lemma_put_outside(b, o, spec_u64_to_le_bytes(p.len as u64), k);
    }
    assert(after.subrange(o + 8, o + 8 + p.len) =~= a.subrange(o + 8, o + 8 + p.len));
}

/// Round trip: once a record with a non-empty body `payload` is published at the
/// reader's position, the reader's next step delivers exactly that record, the
/// region holds `payload` where the step points, and the step after it finds
/// nothing until the writer publishes again.
pub proof fn lemma_publish_then_read(img: Seq<u8>, p: Publication, payload: Seq<u8>, rs: ReaderView)
    requires
        fits(p, img.len() as int),
        payload.len() == p.len,
        p.len > 0,
        p.size == record_size(p.len as int),
        p.len <= rs.max_msg_len,
        rs.failure is None,
        rs.position == p.offset,
        p.offset + p.size <= rs.capacity,
    ensures
        ({
            let after = spec_publish(img, p, payload);
            let (rs2, step) = spec_step(rs, marker_at(after, p.offset as int));
            &&& step == ReadStep::Record { offset: (p.offset + 8) as u32, len: p.len }
            &&& after.subrange(p.offset + 8, p.offset + 8 + p.len) == payload
            &&& rs2.position == p.offset + p.size
            &&& rs2.failure is None
            &&& spec_step(rs2, marker_at(after, p.offset + p.size)).1 == ReadStep::Nothing
        }),
{
    lemma_last_record(img, p, payload);
}

/// Monotonic markers: a publication, or the closing sentinel, only touches bytes at
/// or after its own offset, so the marker of any slot before it keeps the value it had.
/// Since every later publication of a writer (and its `CLOSE`) starts past the records
/// already published, a marker that a reader has seen set to a length never changes again.
pub proof fn lemma_publish_keeps_earlier_marker(
    img: Seq<u8>,
    p: Publication,
    payload: Seq<u8>,
    at: int,
)
    requires
        fits(p, img.len() as int),
        payload.len() == p.len,
        p.size == record_size(p.len as int),
        0 <= at,
        at + 8 <= p.offset,
    ensures
        marker_at(spec_publish(img, p, payload), at) == marker_at(img, at),
        marker_at(put(img, p.offset as int, spec_u64_to_le_bytes(CLOSE)), at) == marker_at(img, at),
{
    lemma_auto_spec_u64_to_from_le_bytes();
    lemma_marker_outside_put(img, p.offset as int, spec_u64_to_le_bytes(CLOSE), at);
    let o = p.offset as int;
    let a = put(img, o + 8, payload);
    let b = put(a, o + p.size, spec_u64_to_le_bytes(WATERMARK));
    lemma_marker_outside_put(img, o + 8, payload, at);
    lemma_marker_outside_put(a, o + p.size, spec_u64_to_le_bytes(WATERMARK), at);
    lemma_marker_outside_put(b, o, spec_u64_to_le_bytes(p.len as u64), at);
}

/// Publications that follow each other from the start of the data region.
pub open spec fn chained(pubs: Seq<Publication>) -> bool {
    &&& pubs.len() > 0 ==> pubs[0].offset == 0
    &&& forall|i: int| 0 < i < pubs.len() ==> #[trigger] pubs[i].offset == pubs[i - 1].offset + pubs[i - 1].size
}

/// Total bytes that publications take.
pub open spec fn total_size(pubs: Seq<Publication>) -> int
    decreases pubs.len(),
{
    if pubs.len() == 0 {
        0
    } else {
        total_size(pubs.drop_last()) + pubs.last().size
    }
}

proof fn lemma_total_is_end(pubs: Seq<Publication>)
    requires
        chained(pubs),
        pubs.len() > 0,
    ensures
        total_size(pubs) == pubs.last().offset + pubs.last().size,
    decreases pubs.len(),
{
    if pubs.len() > 1 {
        let init = pubs.drop_last();
        assert(chained(init)) by {
            assert forall|i: int| 0 < i < init.len() implies #[trigger] init[i].offset == init[i - 1].offset
                + init[i - 1].size by {
                assert(pubs[i].offset == pubs[i - 1].offset + pubs[i - 1].size);
            }
        }
        lemma_total_is_end(init);
        assert(init.last() == pubs[pubs.len() - 2]);
        assert(pubs[pubs.len() - 1].offset == pubs[pubs.len() - 2].offset + pubs[pubs.len() - 2].size);
    } else {
        assert(pubs.drop_last().len() == 0);
        assert(total_size(pubs.drop_last()) == 0);
        assert(pubs.last() == pubs[0]);
    }
}

/// Capacity: the records that a writer publishes (each within the capacity, as
/// `write` ensures) take at most `capacity` bytes in all, and the closing sentinel
/// after them always fits in the data region and its footer.
pub proof fn lemma_capacity(pubs: Seq<Publication>, capacity: u32)
    requires
        chained(pubs),
        forall|i: int| 0 <= i < pubs.len() ==> #[trigger] pubs[i].offset + pubs[i].size <= capacity,
    ensures
        total_size(pubs) <= capacity,
        total_size(pubs) + 8 <= capacity + FOOTER_LEN,
{
    if pubs.len() > 0 {
        lemma_total_is_end(pubs);
        assert(pubs[pubs.len() - 1].offset + pubs[pubs.len() - 1].size <= capacity);
    }
}

/// A full channel: once the write offset reaches the capacity, no space is left
/// (so `write` reports `ChannelFull`); a reader there finds nothing while the
/// watermark stands, and finds `Closed` once the writer has stored `CLOSE`.
pub proof fn lemma_full_channel(img: Seq<u8>, capacity: u32, rs: ReaderView)
    requires
        capacity + 8 <= img.len(),
        marker_at(img, capacity as int) == WATERMARK,
        rs.failure is None,
        rs.position == capacity,
        rs.max_msg_len <= capacity,
    ensures
        spec_available(capacity, capacity) == 0,
        spec_step(rs, marker_at(img, capacity as int)).1 == ReadStep::Nothing,
        spec_step(rs, marker_at(put(img, capacity as int, spec_u64_to_le_bytes(CLOSE)), capacity as int)).1
            == ReadStep::Failed(crate::api::ReadError::Closed),
{
    lemma_marker_of_put(img, capacity as int, CLOSE);
}

/// The data region after publishing `pubs`, with bodies `bodies`, in order.
pub open spec fn spec_publish_all(img: Seq<u8>, pubs: Seq<Publication>, bodies: Seq<Seq<u8>>) -> Seq<u8>
    decreases pubs.len(),
{
    if pubs.len() == 0 {
        img
    } else {
        spec_publish(
            spec_publish_all(img, pubs.drop_last(), bodies),
            pubs.last(),
            bodies[pubs.len() - 1],
        )
    }
}

/// Publications as a writer lays them out: chained from the start of the region,
/// each within the capacity and the maximum record length, each with its body.
pub open spec fn laid_out(
    pubs: Seq<Publication>,
    bodies: Seq<Seq<u8>>,
    capacity: u32,
    max_msg_len: u32,
) -> bool {
    &&& chained(pubs)
    &&& bodies.len() == pubs.len()
    &&& forall|i: int|
        0 <= i < pubs.len() ==> {
            &&& #[trigger] pubs[i].size == record_size(pubs[i].len as int)
            &&& bodies[i].len() == pubs[i].len
            &&& pubs[i].len <= max_msg_len
            &&& pubs[i].offset + pubs[i].size <= capacity
        }
}

/// Where the next record of a writer that published `pubs` goes.
pub open spec fn frontier(pubs: Seq<Publication>) -> int {
    if pubs.len() == 0 {
        0
    } else {
        pubs.last().offset + pubs.last().size
    }
}

proof fn lemma_publish_keeps_bytes_before(img: Seq<u8>, p: Publication, payload: Seq<u8>, k: int)
    requires
        fits(p, img.len() as int),
        payload.len() == p.len,
        p.size == record_size(p.len as int),
        0 <= k < p.offset,
    ensures
        spec_publish(img, p, payload)[k] == img[k],
        spec_publish(img, p, payload).len() == img.len(),
{
    let o = p.offset as int;
    let a = put(img, o + 8, payload);
    let b = put(a, o + p.size, spec_u64_to_le_bytes(WATERMARK));
    lemma_auto_spec_u64_to_from_le_bytes();
    lemma_put_outside(img, o + 8, payload, k);
    lemma_put_outside(a, o + p.size, spec_u64_to_le_bytes(WATERMARK), k);
    lemma_put_outside(b, o, spec_u64_to_le_bytes(p.len as u64), k);
}

proof fn lemma_earlier_record(before: Seq<u8>, p: Publication, body: Seq<u8>, q: Publication, q_body: Seq<u8>)
    requires
        fits(p, before.len() as int),
        body.len() == p.len,
        p.size == record_size(p.len as int),
        q.size == record_size(q.len as int),
        q.offset + q.size <= p.offset,
        q_body.len() == q.len,
        marker_at(before, q.offset as int) == q.len,
        before.subrange(q.offset + 8, q.offset + 8 + q.len) == q_body,
    ensures
        marker_at(spec_publish(before, p, body), q.offset as int) == q.len,
        spec_publish(before, p, body).subrange(q.offset + 8, q.offset + 8 + q.len) == q_body,
{
    let after = spec_publish(before, p, body);
    lemma_publish_keeps_earlier_marker(before, p, body, q.offset as int);
    assert forall|k: int| q.offset + 8 <= k < q.offset + 8 + q.len implies after[k] == before[k] by {
        lemma_publish_keeps_bytes_before(before, p, body, k);
    }
    lemma_publish_len(before, p, body);
    assert(after.subrange(q.offset + 8, q.offset + 8 + q.len) =~= before.subrange(
        q.offset + 8,
        q.offset + 8 + q.len,
    ));
}

#[verifier::rlimit(40)]
proof fn lemma_layout(
    img: Seq<u8>,
    pubs: Seq<Publication>,
    bodies: Seq<Seq<u8>>,
    capacity: u32,
    max_msg_len: u32,
)
    requires
        laid_out(pubs, bodies, capacity, max_msg_len),
        capacity + 8 <= img.len(),
        marker_at(img, 0) == WATERMARK,
    ensures
        spec_publish_all(img, pubs, bodies).len() == img.len(),
        marker_at(spec_publish_all(img, pubs, bodies), frontier(pubs)) == WATERMARK,
        forall|i: int|
            0 <= i < pubs.len() ==> {
                &&& marker_at(spec_publish_all(img, pubs, bodies), #[trigger] pubs[i].offset as int)
                    == pubs[i].len
                &&& spec_publish_all(img, pubs, bodies).subrange(
                    pubs[i].offset + 8,
                    pubs[i].offset + 8 + pubs[i].len,
                ) == bodies[i]
            },
    decreases pubs.len(),
{
    if pubs.len() > 0 {
        let n = pubs.len() - 1;
        let init = pubs.drop_last();
        let init_bodies = bodies.drop_last();
        assert(laid_out(init, init_bodies, capacity, max_msg_len)) by {
            assert forall|i: int| 0 < i < init.len() implies #[trigger] init[i].offset == init[i - 1].offset
                + init[i - 1].size by {
                assert(pubs[i].offset == pubs[i - 1].offset + pubs[i - 1].size);
            }
            assert forall|i: int| 0 <= i < init.len() implies #[trigger] init[i].size == record_size(
                init[i].len as int,
            ) by {
                assert(pubs[i].size == record_size(pubs[i].len as int));
            }
        }
        lemma_publish_all_prefix_bodies(img, init, bodies, init_bodies);
        lemma_layout(img, init, init_bodies, capacity, max_msg_len);
        let before = spec_publish_all(img, init, init_bodies);
        let p = pubs[n];
        assert(p.size == record_size(p.len as int));
        assert(frontier(init) == p.offset) by {
            if n > 0 {
                assert(pubs[n].offset == pubs[n - 1].offset + pubs[n - 1].size);
                assert(init.last() == pubs[n - 1]);
            }
        }
        assert(spec_publish_all(img, pubs, bodies) == spec_publish(before, p, bodies[n]));
        lemma_publish_len(before, p, bodies[n]);
        lemma_last_record(before, p, bodies[n]);
        assert forall|i: int| 0 <= i < pubs.len() implies {
            &&& marker_at(spec_publish_all(img, pubs, bodies), #[trigger] pubs[i].offset as int)
                == pubs[i].len
            &&& spec_publish_all(img, pubs, bodies).subrange(
                pubs[i].offset + 8,
                pubs[i].offset + 8 + pubs[i].len,
            ) == bodies[i]
        } by {
            if i < n {
                assert(init[i] == pubs[i]);
                assert(pubs[i].size == record_size(pubs[i].len as int));
                lemma_offsets_grow(pubs, i, n);
                lemma_earlier_record(before, p, bodies[n], pubs[i], bodies[i]);
            }
        }
    }
}

proof fn lemma_publish_all_prefix_bodies(
    img: Seq<u8>,
    pubs: Seq<Publication>,
    bodies: Seq<Seq<u8>>,
    other: Seq<Seq<u8>>,
)
    requires
        pubs.len() <= bodies.len(),
        pubs.len() <= other.len(),
        forall|i: int| 0 <= i < pubs.len() ==> bodies[i] == other[i],
    ensures
        spec_publish_all(img, pubs, bodies) == spec_publish_all(img, pubs, other),
    decreases pubs.len(),
{
    if pubs.len() > 0 {
        lemma_publish_all_prefix_bodies(img, pubs.drop_last(), bodies, other);
    }
}

proof fn lemma_offsets_grow(pubs: Seq<Publication>, i: int, j: int)
    requires
        chained(pubs),
        0 <= i < j < pubs.len(),
    ensures
        pubs[i].offset + pubs[i].size <= pubs[j].offset,
    decreases j - i,
{
    assert(pubs[j].offset == pubs[j - 1].offset + pubs[j - 1].size);
    if i < j - 1 {
        lemma_offsets_grow(pubs, i, j - 1);
    }
}

/// Prefix: a reader of a region where records `pubs` were published in order
/// finds them one after another, from offset 0. At the offset of the `i`-th, its
/// step delivers exactly that record, with its body, and moves to the offset of
/// the next one (a heartbeat is skipped the same way, delivering nothing); at the
/// frontier it finds nothing. So what any reader sees is the published records,
/// in order, with none repeated or missed.
pub proof fn lemma_reader_sees_prefix(
    img: Seq<u8>,
    pubs: Seq<Publication>,
    bodies: Seq<Seq<u8>>,
    rs: ReaderView,
    i: int,
)
    requires
        laid_out(pubs, bodies, rs.capacity, rs.max_msg_len),
        rs.capacity + 8 <= img.len(),
        marker_at(img, 0) == WATERMARK,
        rs.failure is None,
        0 <= i <= pubs.len(),
        rs.position == if i < pubs.len() { pubs[i].offset as int } else { frontier(pubs) },
    ensures
        ({
            let region = spec_publish_all(img, pubs, bodies);
            let (next, step) = spec_step(rs, marker_at(region, rs.position as int));
            if i < pubs.len() {
                &&& step == if pubs[i].len == 0 {
                    ReadStep::Heartbeat
                } else {
                    ReadStep::Record { offset: (pubs[i].offset + 8) as u32, len: pubs[i].len }
                }
                &&& region.subrange(pubs[i].offset + 8, pubs[i].offset + 8 + pubs[i].len) == bodies[i]
                &&& next.failure is None
                &&& next.position == if i + 1 < pubs.len() {
                    pubs[i + 1].offset as int
                } else {
                    frontier(pubs)
                }
            } else {
                step == ReadStep::Nothing && next == rs
            }
        }),
{
    lemma_layout(img, pubs, bodies, rs.capacity, rs.max_msg_len);
    if i < pubs.len() {
        assert(pubs[i].size == record_size(pubs[i].len as int));
        if i + 1 < pubs.len() {
            assert(pubs[i + 1].offset == pubs[i].offset + pubs[i].size);
        }
    }
}

/// Round trip, writer side: with the plain pipeline (one write of the data's
/// encoding into the sink that `prepare` empties and bounds), an encoding that fits
/// the bound leaves the sink holding exactly that encoding and not failed, so
/// `finish` publishes it as the record body.
pub proof fn lemma_plain_pipeline_fits(before: SinkView, after: SinkView, encoding: Seq<u8>)
    requires
        before.bytes.len() == 0,
        !before.failed,
        sink_step(before, after, encoding),
        encoding.len() <= before.max_size,
    ensures
        !after.failed,
        after.bytes == encoding,
{
    assert(Seq::<u8>::empty() + encoding =~= encoding);
    assert(before.bytes =~= Seq::<u8>::empty());
}

} // verus!
