//! The bit layout of an identifier.
//!
//! From the most significant bit down, an identifier holds a zero sign bit,
//! 41 bits of milliseconds since the epoch, 5 bits of datacenter, 5 bits of
//! worker and 12 bits of sequence. The model below states the layout with
//! multiplication, division and remainder; the executable functions use
//! shifts and masks and are proved to agree with it.

use vstd::prelude::*;

verus! {

/// Largest sequence number within one millisecond.
pub const MAX_SEQUENCE: u16 = 4095;

/// Largest worker id.
pub const MAX_WORKER_ID: u8 = 31;

/// Largest datacenter id.
pub const MAX_DATA_CENTER_ID: u8 = 31;

/// Largest number of milliseconds since the epoch that the layout can hold.
pub const MAX_TIMESTAMP_MS: i64 = 2199023255551;

/// The identifier that holds the four fields.
pub open spec fn pack(timestamp_ms: int, datacenter_id: int, worker_id: int, sequence: int) -> int {
    timestamp_ms * 4194304 + datacenter_id * 131072 + worker_id * 4096 + sequence
}

/// Milliseconds since the epoch held by `id`.
pub open spec fn timestamp_of(id: int) -> int {
    id / 4194304
}

/// Datacenter held by `id`.
pub open spec fn datacenter_of(id: int) -> int {
    (id / 131072) % 32
}

/// Worker held by `id`.
pub open spec fn worker_of(id: int) -> int {
    (id / 4096) % 32
}

/// Sequence number held by `id`.
pub open spec fn sequence_of(id: int) -> int {
    id % 4096
}

/// The four fields of an identifier, read apart.
#[derive(Clone, Copy, Debug, PartialEq, Eq, Structural)]
pub struct Fields {
    pub timestamp_ms: i64,
    pub datacenter_id: u8,
    pub worker_id: u8,
    pub sequence: u16,
}

impl Fields {
    /// Every field lies within the width that the layout gives it.
    pub open spec fn in_range(&self) -> bool {
        &&& 0 <= self.timestamp_ms <= MAX_TIMESTAMP_MS
        &&& self.datacenter_id <= MAX_DATA_CENTER_ID
        &&& self.worker_id <= MAX_WORKER_ID
        &&& self.sequence <= MAX_SEQUENCE
    }

    /// The identifier that these fields make up.
    pub open spec fn packed(&self) -> int {
        pack(
            self.timestamp_ms as int,
            self.datacenter_id as int,
            self.worker_id as int,
            self.sequence as int,
        )
    }

    /// The fields that `id` holds.
    pub open spec fn of(id: i64) -> Fields {
        Fields {
            timestamp_ms: timestamp_of(id as int) as i64,
            datacenter_id: datacenter_of(id as int) as u8,
            worker_id: worker_of(id as int) as u8,
            sequence: sequence_of(id as int) as u16,
        }
    }
}

/// Reads the timestamp of `id`, in milliseconds since the epoch.
pub fn timestamp_ms(id: i64) -> (r: i64)
    ensures
        r == timestamp_of(id as int),
{
    let field: i64 = id >> 22;
    assert(field == id / 4194304) by (bit_vector)
        requires
            field == id >> 22,
    ;
    field
}

/// Reads the datacenter of `id`.
pub fn datacenter_id(id: i64) -> (r: u8)
    ensures
        r == datacenter_of(id as int),
        r <= MAX_DATA_CENTER_ID,
{
    let field: i64 = (id >> 17) & 0x1F;
    assert(field == (id / 131072) % 32 && 0 <= field < 32) by (bit_vector)
        requires
            field == (id >> 17) & 0x1F,
    ;
    field as u8
}

/// Reads the worker of `id`.
pub fn worker_id(id: i64) -> (r: u8)
    ensures
        r == worker_of(id as int),
        r <= MAX_WORKER_ID,
{
    let field: i64 = (id >> 12) & 0x1F;
    assert(field == (id / 4096) % 32 && 0 <= field < 32) by (bit_vector)
        requires
            field == (id >> 12) & 0x1F,
    ;
    field as u8
}

/// Reads the sequence number of `id`.
pub fn sequence(id: i64) -> (r: u16)
    ensures
        r == sequence_of(id as int),
        r <= MAX_SEQUENCE,
{
    let field: i64 = id & 0xFFF;
    assert(field == id % 4096 && 0 <= field < 4096) by (bit_vector)
        requires
            field == id & 0xFFF,
    ;
    field as u16
}

/// Packs the fields into an identifier, or returns `None` where a field is
/// wider than the layout allows.
pub fn compose(fields: Fields) -> (id: Option<i64>)
    ensures
        id is Some <==> fields.in_range(),
        id matches Some(v) ==> v == fields.packed() && v >= 0 && Fields::of(v) == fields,
{
    if fields.timestamp_ms < 0 || fields.timestamp_ms > MAX_TIMESTAMP_MS
        || fields.datacenter_id > MAX_DATA_CENTER_ID || fields.worker_id > MAX_WORKER_ID
        || fields.sequence > MAX_SEQUENCE {
        return None;
    }
    let timestamp: i64 = fields.timestamp_ms;
    let datacenter: i64 = fields.datacenter_id as i64;
    let worker: i64 = fields.worker_id as i64;
    let sequence: i64 = fields.sequence as i64;
    let v: i64 = (timestamp << 22) | (datacenter << 17) | (worker << 12) | sequence;
    assert(v == timestamp * 4194304 + datacenter * 131072 + worker * 4096 + sequence) by (bit_vector)
        requires
            v == (timestamp << 22) | (datacenter << 17) | (worker << 12) | sequence,
            0 <= timestamp <= 2199023255551,
            0 <= datacenter <= 31,
            0 <= worker <= 31,
            0 <= sequence <= 4095,
    ;
    proof {
        lemma_pack_then_read(timestamp as int, datacenter as int, worker as int, sequence as int);
    }
    Some(v)
}

/// Reads the four fields of `id`, or returns `None` where `id` is negative
/// and so no identifier.
pub fn decompose(id: i64) -> (fields: Option<Fields>)
    ensures
        fields is Some <==> id >= 0,
        fields matches Some(f) ==> f == Fields::of(id) && f.in_range() && f.packed() == id,
{
    if id < 0 {
        return None;
    }
    proof {
        lemma_read_then_pack(id as int);
    }
    Some(
        Fields {
            timestamp_ms: timestamp_ms(id),
            datacenter_id: datacenter_id(id),
            worker_id: worker_id(id),
            sequence: sequence(id),
        },
    )
}

/// Packing four fields that fit their widths and reading them back gives the
/// same four fields, and the identifier is a non-negative 64-bit integer.
pub proof fn lemma_pack_then_read(timestamp_ms: int, datacenter_id: int, worker_id: int, sequence: int)
    requires
        0 <= timestamp_ms <= MAX_TIMESTAMP_MS,
        0 <= datacenter_id <= MAX_DATA_CENTER_ID,
        0 <= worker_id <= MAX_WORKER_ID,
        0 <= sequence <= MAX_SEQUENCE,
    ensures
        0 <= pack(timestamp_ms, datacenter_id, worker_id, sequence) <= i64::MAX,
        timestamp_of(pack(timestamp_ms, datacenter_id, worker_id, sequence)) == timestamp_ms,
        datacenter_of(pack(timestamp_ms, datacenter_id, worker_id, sequence)) == datacenter_id,
        worker_of(pack(timestamp_ms, datacenter_id, worker_id, sequence)) == worker_id,
        sequence_of(pack(timestamp_ms, datacenter_id, worker_id, sequence)) == sequence,
{
}

/// Reading the fields of a non-negative 64-bit integer gives four fields that
/// fit their widths, and packing them gives the integer back.
pub proof fn lemma_read_then_pack(id: int)
    requires
        0 <= id <= i64::MAX,
    ensures
        0 <= timestamp_of(id) <= MAX_TIMESTAMP_MS,
        0 <= datacenter_of(id) <= MAX_DATA_CENTER_ID,
        0 <= worker_of(id) <= MAX_WORKER_ID,
        0 <= sequence_of(id) <= MAX_SEQUENCE,
        pack(timestamp_of(id), datacenter_of(id), worker_of(id), sequence_of(id)) == id,
{
}

/// Two identifiers of one coordinate are ordered as their timestamps are, and
/// within one millisecond as their sequence numbers are.
pub proof fn lemma_order_is_time_then_sequence(a: int, b: int)
    requires
        0 <= a <= i64::MAX,
        0 <= b <= i64::MAX,
        datacenter_of(a) == datacenter_of(b),
        worker_of(a) == worker_of(b),
    ensures
        a < b <==> timestamp_of(a) < timestamp_of(b) || (timestamp_of(a) == timestamp_of(b)
            && sequence_of(a) < sequence_of(b)),
{
    lemma_read_then_pack(a);
    lemma_read_then_pack(b);
}

} // verus!
