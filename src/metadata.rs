//! The fixed 128-byte block at the start of a channel that describes it.
use crate::api::ChannelError;
use crate::framing::{align, ceil8, REC_HEADER_LEN};
use crate::tick::{valid_tick_id, TickUnit};
use crate::version::Version;
use vstd::bytes::*;
use vstd::prelude::*;
use vstd::slice::slice_subrange;
use vstd::string::StringExecFns;

verus! {

/// Smallest capacity of a channel's data region, in bytes.
pub const MIN_CAPACITY: u32 = 16384;

/// Length of the metadata block, in bytes.
pub const METADATA_LEN: usize = 128;

/// Signature at the start of every channel: the bytes `*KEKBIT*`.
pub const SIGNATURE: u64 = 0x2A54_4942_4B45_4B2A;

/// Largest record payload that a channel of `capacity` bytes allows: `capacity / 128 - 8`.
pub open spec fn spec_max_msg_len_bound(capacity: u32) -> int {
    capacity as int / 128 - REC_HEADER_LEN as int
}

/// `n` rounded down to a multiple of 8.
pub open spec fn floor8(n: int) -> int {
    n - n % 8
}

fn compute_max_msg_len(capacity: u32) -> (r: u32)
    requires
        capacity >= MIN_CAPACITY,
    ensures
        r == spec_max_msg_len_bound(capacity),
{
    assert(capacity >> 7u32 == capacity / 128) by (bit_vector);
    (capacity >> 7) - REC_HEADER_LEN
}

/// The content of a metadata block.
pub struct MetadataView {
    pub writer_id: u64,
    pub channel_id: u64,
    pub capacity: u32,
    pub max_msg_len: u32,
    pub timeout: u64,
    pub creation_time: u64,
    pub tick_unit: TickUnit,
    pub version: u64,
}

/// What a reader requires of a channel's metadata.
pub open spec fn valid_metadata(m: MetadataView) -> bool {
    &&& m.capacity >= MIN_CAPACITY
    &&& m.capacity % 8 == 0
    &&& m.max_msg_len <= spec_max_msg_len_bound(m.capacity)
    &&& m.max_msg_len % 8 == 0
    &&& m.version <= Version::spec_latest()
}

/// `n` zero bytes.
pub open spec fn zeros(n: nat) -> Seq<u8> {
    Seq::new(n, |i: int| 0u8)
}

/// The 128 bytes that `write_to` stores for metadata `m`.
pub open spec fn spec_encode(m: MetadataView) -> Seq<u8> {
    spec_u64_to_le_bytes(SIGNATURE) + spec_u64_to_le_bytes(Version::spec_latest())
        + spec_u64_to_le_bytes(m.writer_id) + spec_u64_to_le_bytes(m.channel_id)
        + spec_u32_to_le_bytes(m.capacity) + spec_u32_to_le_bytes(m.max_msg_len)
        + spec_u64_to_le_bytes(m.timeout) + spec_u64_to_le_bytes(m.creation_time) + seq![
        m.tick_unit.spec_id(),
    ] + zeros(71)
}

/// The little-endian `u64` at `off` in `b`.
pub open spec fn le64_at(b: Seq<u8>, off: int) -> u64 {
    spec_u64_from_le_bytes(b.subrange(off, off + 8))
}

/// The little-endian `u32` at `off` in `b`.
pub open spec fn le32_at(b: Seq<u8>, off: int) -> u32 {
    spec_u32_from_le_bytes(b.subrange(off, off + 4))
}

/// The fields stored in the metadata block `b`.
pub open spec fn spec_decode(b: Seq<u8>) -> MetadataView {
    MetadataView {
        writer_id: le64_at(b, 16),
        channel_id: le64_at(b, 24),
        capacity: le32_at(b, 32),
        max_msg_len: le32_at(b, 36),
        timeout: le64_at(b, 40),
        creation_time: le64_at(b, 48),
        tick_unit: TickUnit::spec_from_id(b[56]),
        version: le64_at(b, 8),
    }
}

/// Why a metadata block is refused.
pub enum MetadataFault {
    /// The signature is not the channel signature.
    Signature,
    /// The version is newer than the one this library writes.
    Version,
    /// The capacity is below the minimum.
    CapacityTooSmall,
    /// The capacity is not a multiple of 8.
    CapacityUnaligned,
    /// The maximum message length exceeds `capacity / 128 - 8`.
    MaxLenTooLarge,
    /// The maximum message length is not a multiple of 8.
    MaxLenUnaligned,
    /// The tick unit id is none of 9, 6, 3 and 0.
    TickUnit,
}

/// The first check that the metadata block `b` fails, in the order they are made.
pub open spec fn spec_first_fault(b: Seq<u8>) -> Option<MetadataFault> {
    if le64_at(b, 0) != SIGNATURE {
        Some(MetadataFault::Signature)
    } else if le64_at(b, 8) > Version::spec_latest() {
        Some(MetadataFault::Version)
    } else if le32_at(b, 32) < MIN_CAPACITY {
        Some(MetadataFault::CapacityTooSmall)
    } else if le32_at(b, 32) % 8 != 0 {
        Some(MetadataFault::CapacityUnaligned)
    } else if le32_at(b, 36) > spec_max_msg_len_bound(le32_at(b, 32)) {
        Some(MetadataFault::MaxLenTooLarge)
    } else if le32_at(b, 36) % 8 != 0 {
        Some(MetadataFault::MaxLenUnaligned)
    } else if !valid_tick_id(b[56]) {
        Some(MetadataFault::TickUnit)
    } else {
        None
    }
}

/// `e` is the error that reports fault `f` of the metadata block `b`.
pub open spec fn reports(e: ChannelError, f: MetadataFault, b: Seq<u8>) -> bool {
    match f {
        MetadataFault::Signature => e == ChannelError::InvalidSignature { expected: SIGNATURE, actual: le64_at(b, 0) },
        MetadataFault::Version => e == ChannelError::IncompatibleVersion {
            expected: Version::spec_latest(),
            actual: le64_at(b, 8),
        },
        MetadataFault::CapacityTooSmall => e == ChannelError::InvalidCapacity {
            capacity: le32_at(b, 32),
            msg: "Capacity below the minimum of 16KB",
        },
        MetadataFault::CapacityUnaligned => e == ChannelError::InvalidCapacity {
            capacity: le32_at(b, 32),
            msg: "Capacity is not 8 bytes aligned",
        },
        MetadataFault::MaxLenTooLarge => e == ChannelError::InvalidMaxMessageLength {
            msg_len: le32_at(b, 36),
            msg: "Max message length is too large",
        },
        MetadataFault::MaxLenUnaligned => e == ChannelError::InvalidMaxMessageLength {
            msg_len: le32_at(b, 36),
            msg: "Max message length is not 8 bytes aligned",
        },
        MetadataFault::TickUnit => match e {
            ChannelError::AccessError { reason } => reason@ == "Unknown tick unit id"@,
            _ => false,
        },
    }
}

/// The metadata of a channel: who writes it, how large it is, and its time policy.
#[derive(PartialEq, Eq, Debug, Clone, Copy, Structural)]
pub struct Metadata {
    writer_id: u64,
    channel_id: u64,
    capacity: u32,
    max_msg_len: u32,
    timeout: u64,
    creation_time: u64,
    tick_unit: TickUnit,
    version: Version,
}

/// The channel header: another name for its metadata block.
pub type Header = Metadata;

impl View for Metadata {
    type V = MetadataView;

    closed spec fn view(&self) -> MetadataView {
        MetadataView {
            writer_id: self.writer_id,
            channel_id: self.channel_id,
            capacity: self.capacity,
            max_msg_len: self.max_msg_len,
            timeout: self.timeout,
            creation_time: self.creation_time,
            tick_unit: self.tick_unit,
            version: self.version@,
        }
    }
}

/// Reads the little-endian `u64` at `offset`.
fn read_u64(metadata: &[u8], offset: usize) -> (r: u64)
    requires
        offset + 8 <= metadata@.len(),
        offset < METADATA_LEN,
    ensures
        r == le64_at(metadata@, offset as int),
{
    u64_from_le_bytes(slice_subrange(metadata, offset, offset + 8))
}

/// Reads the little-endian `u32` at `offset`.
fn read_u32(metadata: &[u8], offset: usize) -> (r: u32)
    requires
        offset + 4 <= metadata@.len(),
        offset < METADATA_LEN,
    ensures
        r == le32_at(metadata@, offset as int),
{
    u32_from_le_bytes(slice_subrange(metadata, offset, offset + 4))
}

impl Metadata {
    /// Defines the metadata of a new channel.
    ///
    /// The capacity is `capacity_hint` rounded up to a multiple of 8, and at least 16 KiB.
    /// The maximum message length is `max_msg_len_hint + 8` rounded up to a multiple of 8,
    /// but no more than `capacity / 128 - 8` rounded down to a multiple of 8.
    /// The creation time is read from the clock in `tick_unit`.
    pub fn new(
        writer_id: u64,
        channel_id: u64,
        capacity_hint: u32,
        max_msg_len_hint: u32,
        timeout: u64,
        tick_unit: TickUnit,
    ) -> (r: Metadata)
        requires
            capacity_hint <= u32::MAX - 7,
        ensures
            r@.writer_id == writer_id,
            r@.channel_id == channel_id,
            r@.capacity == if ceil8(capacity_hint as int) < MIN_CAPACITY {
                MIN_CAPACITY as int
            } else {
                ceil8(capacity_hint as int)
            },
            r@.max_msg_len == if ceil8(max_msg_len_hint + 8) < floor8(
                spec_max_msg_len_bound(r@.capacity),
            ) {
                ceil8(max_msg_len_hint + 8)
            } else {
                floor8(spec_max_msg_len_bound(r@.capacity))
            },
            r@.timeout == timeout,
            r@.tick_unit == tick_unit,
            r@.version == Version::spec_latest(),
            valid_metadata(r@),
    {
        let aligned = align(capacity_hint);
        let capacity = if aligned < MIN_CAPACITY {
            MIN_CAPACITY
        } else {
            aligned
        };
        let bound = compute_max_msg_len(capacity);
        let bound_aligned = bound - bound % 8;
        let wanted: u64 = max_msg_len_hint as u64 + REC_HEADER_LEN as u64;
        let wanted_aligned: u64 = wanted + (8 - wanted % 8) % 8;
        let max_msg_len = if wanted_aligned < bound_aligned as u64 {
            wanted_aligned as u32
        } else {
            bound_aligned
        };
        let creation_time = tick_unit.nix_time();
        let version = Version::latest();
        Metadata {
            writer_id,
            channel_id,
            capacity,
            max_msg_len,
            timeout,
            creation_time,
            tick_unit,
            version,
        }
    }

    /// Reads and validates the metadata block at the start of `metadata`.
    pub fn read(metadata: &[u8]) -> (r: Result<Metadata, ChannelError>)
        requires
            metadata@.len() >= METADATA_LEN,
        ensures
            match r {
                Ok(m) => spec_first_fault(metadata@) is None && m@ == spec_decode(metadata@)
                    && valid_metadata(m@),
                Err(e) => spec_first_fault(metadata@) is Some && reports(
                    e,
                    spec_first_fault(metadata@)->0,
                    metadata@,
                ),
            },
    {
        let signature = read_u64(metadata, 0);
        if signature != SIGNATURE {
            return Err(ChannelError::InvalidSignature { expected: SIGNATURE, actual: signature });
        }
        let version = Version::from(read_u64(metadata, 8));
        let latest = Version::latest();
        if !latest.is_compatible(version) {
            return Err(
                ChannelError::IncompatibleVersion {
                    expected: latest.packed(),
                    actual: version.packed(),
                },
            );
        }
        let writer_id = read_u64(metadata, 16);
        let channel_id = read_u64(metadata, 24);
        let capacity = read_u32(metadata, 32);
        if capacity < MIN_CAPACITY {
            return Err(
                ChannelError::InvalidCapacity {
                    capacity,
                    msg: "Capacity below the minimum of 16KB",
                },
            );
        }
        if capacity % 8 != 0 {
            return Err(
                ChannelError::InvalidCapacity { capacity, msg: "Capacity is not 8 bytes aligned" },
            );
        }
        let max_msg_len = read_u32(metadata, 36);
        if max_msg_len > compute_max_msg_len(capacity) {
            return Err(
                ChannelError::InvalidMaxMessageLength {
                    msg_len: max_msg_len,
                    msg: "Max message length is too large",
                },
            );
        }
        if max_msg_len % 8 != 0 {
            return Err(
                ChannelError::InvalidMaxMessageLength {
                    msg_len: max_msg_len,
                    msg: "Max message length is not 8 bytes aligned",
                },
            );
        }
        let timeout = read_u64(metadata, 40);
        let creation_time = read_u64(metadata, 48);
        let id = metadata[56];
        if !(id == 9 || id == 6 || id == 3 || id == 0) {
            return Err(ChannelError::AccessError { reason: String::from_str("Unknown tick unit id") });
        }
        let tick_unit = TickUnit::from_id(id);
        Ok(
            Metadata {
                writer_id,
                channel_id,
                capacity,
                max_msg_len,
                timeout,
                creation_time,
                tick_unit,
                version,
            },
        )
    }

    /// Writes the metadata block at the start of `metadata`, stamped with the version
    /// this library writes; the rest of `metadata` is left as it was.
    /// Returns the length of the block.
    pub fn write_to(&self, metadata: &mut [u8]) -> (r: usize)
        requires
            old(metadata)@.len() >= METADATA_LEN,
        ensures
            r == METADATA_LEN,
            final(metadata)@.len() == old(metadata)@.len(),
            final(metadata)@.subrange(0, METADATA_LEN as int) == spec_encode(self@),
            final(metadata)@.subrange(METADATA_LEN as int, final(metadata)@.len() as int)
                == old(metadata)@.subrange(METADATA_LEN as int, old(metadata)@.len() as int),
    {
        let mut image = u64_to_le_bytes(SIGNATURE);
        let mut part = u64_to_le_bytes(Version::latest().packed());
        image.append(&mut part);
        let mut part = u64_to_le_bytes(self.writer_id);
        image.append(&mut part);
        let mut part = u64_to_le_bytes(self.channel_id);
        image.append(&mut part);
        let mut part = u32_to_le_bytes(self.capacity);
        image.append(&mut part);
        let mut part = u32_to_le_bytes(self.max_msg_len);
        image.append(&mut part);
        let mut part = u64_to_le_bytes(self.timeout);
        image.append(&mut part);
        let mut part = u64_to_le_bytes(self.creation_time);
        image.append(&mut part);
        image.push(self.tick_unit.id());
        let ghost head = image@;
        let mut i: usize = 57;
        while i < METADATA_LEN
            invariant
                57 <= i <= METADATA_LEN,
                head.len() == 57,
                image@ == head + zeros((i - 57) as nat),
            decreases METADATA_LEN - i,
        {
            image.push(0u8);
            assert(image@ =~= head + zeros((i + 1 - 57) as nat));
            i = i + 1;
        }
        assert(image@ =~= spec_encode(self@));
        let mut j: usize = 0;
        while j < METADATA_LEN
            invariant
                0 <= j <= METADATA_LEN,
                image@.len() == METADATA_LEN,
                metadata@.len() == old(metadata)@.len(),
                old(metadata)@.len() >= METADATA_LEN,
                forall|k: int| 0 <= k < j ==> metadata@[k] == image@[k],
                forall|k: int| j <= k < metadata@.len() ==> metadata@[k] == old(metadata)@[k],
            decreases METADATA_LEN - j,
        {
            metadata[j] = image[j];
            j = j + 1;
        }
        assert(metadata@.subrange(0, METADATA_LEN as int) =~= image@);
        assert(metadata@.subrange(METADATA_LEN as int, metadata@.len() as int)
            =~= old(metadata)@.subrange(METADATA_LEN as int, old(metadata)@.len() as int));
        METADATA_LEN
    }

    /// The version of the library that defined this metadata, as `major.minor.patch`.
    pub fn version(&self) -> (r: String)
        ensures
            r@ == Version::spec_text(self@.version),
    {
        self.version.to_string()
    }

    /// The channel identifier.
    pub fn channel_id(&self) -> (r: u64)
        ensures
            r == self@.channel_id,
    {
        self.channel_id
    }

    /// The identifier of the channel's writer.
    pub fn writer_id(&self) -> (r: u64)
        ensures
            r == self@.writer_id,
    {
        self.writer_id
    }

    /// The capacity of the data region, in bytes.
    pub fn capacity(&self) -> (r: u32)
        ensures
            r == self@.capacity,
    {
        self.capacity
    }

    /// The largest payload a record may have, in bytes.
    pub fn max_msg_len(&self) -> (r: u32)
        ensures
            r == self@.max_msg_len,
    {
        self.max_msg_len
    }

    /// The writer inactivity interval after which readers consider the channel abandoned.
    pub fn timeout(&self) -> (r: u64)
        ensures
            r == self@.timeout,
    {
        self.timeout
    }

    /// When the channel was created, in its tick unit.
    pub fn creation_time(&self) -> (r: u64)
        ensures
            r == self@.creation_time,
    {
        self.creation_time
    }

    /// The time unit of the creation time and the timeout.
    pub fn tick_unit(&self) -> (r: TickUnit)
        ensures
            r == self@.tick_unit,
    {
        self.tick_unit
    }

    /// The length of the metadata block: 128 bytes.
    pub fn len(&self) -> (r: usize)
        ensures
            r == METADATA_LEN,
    {
        METADATA_LEN
    }
}

} // verus!

verus! {

/// Reading back the block that `write_to` stores for valid metadata `m`, stamped with
/// the current version, passes every check and yields `m`.
pub proof fn lemma_metadata_round_trip(m: MetadataView)
    requires
        valid_metadata(m),
        m.version == Version::spec_latest(),
    ensures
        spec_first_fault(spec_encode(m)) is None,
        spec_decode(spec_encode(m)) == m,
{
    lemma_auto_spec_u64_to_from_le_bytes();
    lemma_auto_spec_u32_to_from_le_bytes();
    let b = spec_encode(m);
    assert(b.subrange(0, 8) =~= spec_u64_to_le_bytes(SIGNATURE));
    assert(b.subrange(8, 16) =~= spec_u64_to_le_bytes(Version::spec_latest()));
    assert(b.subrange(16, 24) =~= spec_u64_to_le_bytes(m.writer_id));
    assert(b.subrange(24, 32) =~= spec_u64_to_le_bytes(m.channel_id));
    assert(b.subrange(32, 36) =~= spec_u32_to_le_bytes(m.capacity));
    assert(b.subrange(36, 40) =~= spec_u32_to_le_bytes(m.max_msg_len));
    assert(b.subrange(40, 48) =~= spec_u64_to_le_bytes(m.timeout));
    assert(b.subrange(48, 56) =~= spec_u64_to_le_bytes(m.creation_time));
    assert(b[56] == m.tick_unit.spec_id());
}

/// The round trip on values: the metadata that `read` returns from the block that
/// `write_to` stored for valid metadata `m`, stamped with the current version, is `m`.
pub proof fn lemma_metadata_value_round_trip(m: Metadata, r: Metadata)
    requires
        valid_metadata(m@),
        m@.version == Version::spec_latest(),
        r@ == spec_decode(spec_encode(m@)),
    ensures
        r == m,
{
    lemma_metadata_round_trip(m@);
    crate::version::lemma_version_view_injective(r.version, m.version);
}

} // verus!
