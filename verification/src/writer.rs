//! Byte accounting for writing source images into committed partitions:
//! where the leading signature-clear and the source copy go, and the
//! chunked zero fill that covers the rest of the extent, so that the whole
//! partition is deterministic — image bytes followed by zeros.

use vstd::prelude::*;
use vstd::arithmetic::div_mod::lemma_div_multiples_vanish;
use crate::parts::{CreatedPartition, FlashError, PartitionExtent};
use crate::LBA_SIZE;

verus! {

/// Bytes cleared at the start of every committed partition, destroying any
/// pre-existing filesystem signature.
pub const SIGNATURE_CLEAR_BYTES: u64 = 1024;

/// Size of one zero-fill write; the final write is truncated to the exact
/// remaining count.
pub const ZERO_FILL_CHUNK: u64 = 32 * 1024;

/// Byte offset of the partition's first block.
pub fn partition_start(p: &PartitionExtent) -> (r: u64)
    requires
        p.first_lba * LBA_SIZE <= u64::MAX,
    ensures
        r == p.first_lba * LBA_SIZE,
{
    p.first_lba * LBA_SIZE
}

/// The partition's true byte length, computed from its block extent; an
/// extent whose length in bytes does not fit the numeric range is rejected.
pub fn partition_byte_len(p: &PartitionExtent) -> (r: Result<u64, FlashError>)
    ensures
        r is Ok <==> p.first_lba <= p.last_lba && (p.last_lba - p.first_lba + 1) * LBA_SIZE
            <= u64::MAX,
        match r {
            Ok(v) => v == (p.last_lba - p.first_lba + 1) * LBA_SIZE,
            Err(e) => e matches FlashError::TableConstruction { name, .. } && name@ == p.name@,
        },
{
    if p.last_lba < p.first_lba {
        return Err(FlashError::TableConstruction {
            name: p.name.clone(),
            size: 0,
            detail: "partition extent ends before it starts".to_owned(),
        });
    }
    let sectors = p.last_lba - p.first_lba;
    if sectors >= u64::MAX / LBA_SIZE {
        proof {
            lemma_div_multiples_vanish((u64::MAX / LBA_SIZE) as int, LBA_SIZE as int);
        }
        return Err(FlashError::TableConstruction {
            name: p.name.clone(),
            size: 0,
            detail: "partition byte length overflows".to_owned(),
        });
    }
    Ok((sectors + 1) * LBA_SIZE)
}

/// The copy step for one committed partition: the byte offset to seek to and
/// the source path to stream from, or nothing when the partition carries no
/// source content and only the signature clear applies.
pub fn image_copy_step(c: &CreatedPartition) -> (r: Option<(u64, String)>)
    requires
        c.partition.first_lba * LBA_SIZE <= u64::MAX,
    ensures
        match r {
            Some(t) => c.def matches Some(d) && d.source_file == Some(t.1) && t.0
                == c.partition.first_lba * LBA_SIZE,
            None => match c.def {
                Some(d) => d.source_file is None,
                None => true,
            },
        },
{
    match &c.def {
        None => None,
        Some(d) => match &d.source_file {
            None => None,
            Some(src) => Some((c.partition.first_lba * LBA_SIZE, src.clone())),
        },
    }
}

/// Total length of a sequence of (offset, length) writes.
pub open spec fn sum_lens(s: Seq<(u64, u64)>) -> int
    decreases s.len(),
{
    if s.len() == 0 {
        0
    } else {
        sum_lens(s.drop_last()) + s.last().1
    }
}

/// The zero-fill writes that cover `[start, start + total)` in order: each
/// at most one chunk long, all but the last exactly one chunk, contiguous
/// from `start`, and together exactly `total` bytes.
pub fn zero_fill_ops(start: u64, total: u64) -> (r: Vec<(u64, u64)>)
    requires
        start + total <= u64::MAX,
    ensures
        sum_lens(r@) == total,
        forall|k: int| 0 <= k < r@.len() ==> 0 < (#[trigger] r@[k]).1 <= ZERO_FILL_CHUNK,
        forall|k: int| 0 <= k < r@.len() - 1 ==> (#[trigger] r@[k]).1 == ZERO_FILL_CHUNK,
        forall|k: int|
            0 <= k < r@.len() ==> (#[trigger] r@[k]).0 == start + sum_lens(r@.subrange(0, k)),
        total == 0 <==> r@.len() == 0,
{
    let mut ops: Vec<(u64, u64)> = Vec::new();
    let mut offset: u64 = 0;
    while offset < total
        invariant
            start + total <= u64::MAX,
            offset <= total,
            sum_lens(ops@) == offset,
            offset == 0 <==> ops@.len() == 0,
            forall|k: int| 0 <= k < ops@.len() ==> 0 < (#[trigger] ops@[k]).1 <= ZERO_FILL_CHUNK,
            forall|k: int| 0 <= k < ops@.len() - 1 ==> (#[trigger] ops@[k]).1 == ZERO_FILL_CHUNK,
            offset < total && ops@.len() > 0 ==> ops@.last().1 == ZERO_FILL_CHUNK,
            forall|k: int|
                0 <= k < ops@.len() ==> (#[trigger] ops@[k]).0 == start + sum_lens(
                    ops@.subrange(0, k),
                ),
        decreases total - offset,
    {
        let remaining = total - offset;
        let chunk = if remaining < ZERO_FILL_CHUNK {
            remaining
        } else {
            ZERO_FILL_CHUNK
        };
        let ghost pre = ops@;
        ops.push((start + offset, chunk));
        proof {
            assert(ops@.drop_last() =~= pre);
            assert forall|k: int| 0 <= k < ops@.len() implies (#[trigger] ops@[k]).0 == start
                + sum_lens(ops@.subrange(0, k)) by {
                assert(ops@.subrange(0, k) =~= pre.subrange(0, k)) by {
                    assert(forall|m: int| 0 <= m < k ==> ops@[m] == pre[m]);
                }
                if k == pre.len() {
                    assert(pre.subrange(0, k) =~= pre);
                }
            }
        }
        offset = offset + chunk;
    }
    ops
}

/// Computes the zero-fill plan for what remains of a partition after its
/// source content was copied: the writes begin right after the copied bytes
/// and the copied bytes plus the zero padding exactly equal the partition's
/// byte length.
pub fn zero_fill_remainder_ops(part_start: u64, byte_len: u64, copied: u64) -> (r: Vec<(u64, u64)>)
    requires
        copied <= byte_len,
        part_start + byte_len <= u64::MAX,
    ensures
        copied + sum_lens(r@) == byte_len,
        forall|k: int| 0 <= k < r@.len() ==> 0 < (#[trigger] r@[k]).1 <= ZERO_FILL_CHUNK,
        forall|k: int| 0 <= k < r@.len() - 1 ==> (#[trigger] r@[k]).1 == ZERO_FILL_CHUNK,
        forall|k: int|
            0 <= k < r@.len() ==> (#[trigger] r@[k]).0 == part_start + copied + sum_lens(
                r@.subrange(0, k),
            ),
        copied == byte_len <==> r@.len() == 0,
{
    zero_fill_ops(part_start + copied, byte_len - copied)
}

} // verus!
