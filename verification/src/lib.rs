//! Partition planning and disk-write pipeline for provisioning a block
//! device or disk image with a GUID partition table: alignment arithmetic,
//! partition ordering policy, table-construction sequencing, image-write
//! byte accounting, and the device-readiness retry used before formatting.

pub mod alignment;
pub mod formatter;
pub mod gpt_io;
pub mod parts;
pub mod planner;
pub mod sizes;
pub mod table;
pub mod text;
pub mod writer;

use vstd::prelude::*;

verus! {

/// Size of one logical block (sector) in bytes.
pub const LBA_SIZE: u64 = 512;

/// Alignment of every partition after the first, in bytes: 1 MiB.
pub const PART_ALIGNMENT: u64 = 1024 * 1024;

/// Alignment of the first partition, in bytes: 8 MiB. File-backed plan
/// entries are sized in units of this alignment wherever they end up.
pub const FIRST_PART_ALIGNMENT: u64 = 8 * 1024 * 1024;

/// Alignment of the pre-bootloader partition, in logical blocks: 64 sectors.
pub const IDBLOADER_ALIGNMENT_LBA: u64 = 0x40;

/// Alignment of the pre-bootloader partition, in bytes: 64 sectors of 512
/// bytes, a 32 KiB granularity.
pub const IDBLOADER_ALIGNMENT: u64 = 0x40 * 512;

} // verus!
