//! The trusted boundary to the external GPT codec: the disk's partition
//! table is modelled as a map from entry id to (name, first block, last
//! block), covering the entries whose type marks them as in use, and every
//! call the table builder makes goes through a contracted wrapper.

use vstd::prelude::*;
use gpt::partition_types::{ANDROID_BOOT, ANDROID_BOOTLOADER, ANDROID_BOOTLOADER2, ANDROID_CACHE,
    ANDROID_DATA, ANDROID_FACTORY, ANDROID_FASTBOOT, ANDROID_META, ANDROID_MISC, ANDROID_OEM,
    ANDROID_PERSISTENT, ANDROID_RECOVERY, ANDROID_SYSTEM, BASIC};
use crate::parts::{PartitionExtent, PartitionType};

verus! {

#[verifier::external_type_specification]
#[verifier::external_body]
pub struct ExGptDisk<'a>(gpt::GptDisk<'a>);

/// The in-use partition entries of the table held by `d`: entry id to
/// (name, first logical block, last logical block).
pub uninterp spec fn gpt_table(d: gpt::GptDisk<'static>) -> Map<u32, (Seq<char>, u64, u64)>;

/// The disk was opened writable at 512-byte logical blocks.
pub uninterp spec fn gpt_writable_512(d: gpt::GptDisk<'static>) -> bool;

/// The disk's headers have been computed over the device's usable range, so
/// entries can be added and the table persisted.
pub uninterp spec fn gpt_ready(d: gpt::GptDisk<'static>) -> bool;

/// The free extents between the table's entries within the usable range, as
/// (starting block, length in blocks) pairs in ascending position order.
pub uninterp spec fn gpt_free_extents(d: gpt::GptDisk<'static>) -> Seq<(u64, u64)>;

/// The in-use partition entries of the table as stored on the device itself:
/// what a fresh read of the destination would see. Only persisting writes it;
/// the in-memory calls leave it alone.
pub uninterp spec fn gpt_device_table(d: gpt::GptDisk<'static>) -> Map<u32, (Seq<char>, u64, u64)>;

/// The pair sequence `s` lists the table `t`: ids strictly ascend, every
/// listed id that the table holds carries the table's entry, and every id of
/// the table is listed.
pub open spec fn gpt_listing(
    t: Map<u32, (Seq<char>, u64, u64)>,
    s: Seq<(u32, PartitionExtent)>,
) -> bool {
    &&& forall|k1: int, k2: int| 0 <= k1 < k2 < s.len() ==> (#[trigger] s[k1]).0 < (#[trigger] s[k2]).0
    &&& forall|k: int|
        0 <= k < s.len() && t.dom().contains((#[trigger] s[k]).0) ==> t[s[k].0] == (
            s[k].1.name@,
            s[k].1.first_lba,
            s[k].1.last_lba,
        )
    &&& forall|id: u32|
        #[trigger] t.dom().contains(id) ==> exists|k: int| 0 <= k < s.len() && s[k].0 == id
}

/// Relies on gpt::GptConfig::open: opens the destination for writing with
/// 512-byte logical blocks, reading no existing table, so the table starts
/// out with no entries.
#[verifier::external_body]
pub(crate) fn gpt_open_for_writing(path: &str) -> (r: Result<gpt::GptDisk<'static>, String>)
    ensures
        match r {
            Ok(d) => gpt_writable_512(d) && gpt_table(d) == Map::<u32, (Seq<char>, u64, u64)>::empty(),
            Err(_) => true,
        },
{
    let cfg = gpt::GptConfig::new().initialized(false).writable(true).logical_block_size(
        gpt::disk::LogicalBlockSize::Lb512,
    );
    cfg.open(path).map_err(|e| e.to_string())
}

/// Relies on gpt::GptConfig::open: opens the destination read-only at
/// 512-byte logical blocks and reads the table already written there.
#[verifier::external_body]
pub(crate) fn gpt_open_readonly(path: &str) -> (r: Result<gpt::GptDisk<'static>, String>)
{
    let cfg = gpt::GptConfig::new().initialized(true).writable(false).logical_block_size(
        gpt::disk::LogicalBlockSize::Lb512,
    );
    cfg.open(path).map_err(|e| e.to_string())
}

/// Relies on gpt::GptDisk::update_partitions: replaces the table with an
/// empty one and computes fresh headers over the device's usable range; on
/// failure (the device could not be read) nothing has changed.
#[verifier::external_body]
pub(crate) fn gpt_clear_partitions(d: &mut gpt::GptDisk<'static>) -> (r: Result<(), String>)
    requires
        gpt_writable_512(*old(d)),
    ensures
        gpt_writable_512(*final(d)),
        gpt_device_table(*final(d)) == gpt_device_table(*old(d)),
        match r {
            Ok(_) => gpt_table(*final(d)) == Map::<u32, (Seq<char>, u64, u64)>::empty()
                && gpt_ready(*final(d)),
            Err(_) => gpt_table(*final(d)) == gpt_table(*old(d)),
        },
{
    d.update_partitions(std::collections::BTreeMap::new()).map(|_| ()).map_err(|e| e.to_string())
}

/// Relies on gpt::GptDisk::add_partition, and on the gpt partition-type
/// constants for the on-disk type GUID of each class: adds an entry of
/// `size` bytes at the lowest free extent that fits it, its first block
/// aligned to `alignment_lba` blocks, covering ceil(size/512) blocks; on
/// failure (no extent fits) the table is unchanged.
#[verifier::external_body]
pub(crate) fn gpt_add_partition(
    d: &mut gpt::GptDisk<'static>,
    name: &str,
    size: u64,
    part_type: PartitionType,
    flags: u64,
    alignment_lba: u64,
) -> (r: Result<u32, String>)
    requires
        gpt_writable_512(*old(d)),
        gpt_ready(*old(d)),
        size >= 1,
        1 <= alignment_lba <= 0x10000,
        (size - 1) / 512 + alignment_lba <= u64::MAX,
    ensures
        gpt_writable_512(*final(d)),
        gpt_ready(*final(d)),
        gpt_device_table(*final(d)) == gpt_device_table(*old(d)),
        match r {
            Ok(id) => !gpt_table(*old(d)).dom().contains(id) && gpt_table(*final(d))
                == gpt_table(*old(d)).insert(id, gpt_table(*final(d))[id]) && gpt_table(
                *final(d),
            )[id].0 == name@ && gpt_table(*final(d))[id].1 % alignment_lba == 0 && gpt_table(
                *final(d),
            )[id].2 == gpt_table(*final(d))[id].1 + (size - 1) / 512,
            Err(_) => gpt_table(*final(d)) == gpt_table(*old(d)),
        },
{
    let t = match part_type {
        PartitionType::System => ANDROID_SYSTEM, PartitionType::Cache => ANDROID_CACHE,
        PartitionType::Data => ANDROID_DATA, PartitionType::Boot => ANDROID_BOOT,
        PartitionType::Recovery => ANDROID_RECOVERY, PartitionType::Misc => ANDROID_MISC,
        PartitionType::Metadata => ANDROID_META, PartitionType::Factory => ANDROID_FACTORY,
        PartitionType::Bootloader => ANDROID_BOOTLOADER,
        PartitionType::Bootloader2 => ANDROID_BOOTLOADER2,
        PartitionType::Fastboot => ANDROID_FASTBOOT, PartitionType::Oem => ANDROID_OEM,
        PartitionType::Persistent => ANDROID_PERSISTENT, PartitionType::Basic => BASIC,
    };
    d.add_partition(name, size, t, flags, Some(alignment_lba)).map_err(|e| e.to_string())
}

/// Relies on gpt::GptDisk::partitions: looks the entry `id` up and hands its
/// name, extent and unique identifier out as plain values.
#[verifier::external_body]
pub(crate) fn gpt_partition_extent(d: &gpt::GptDisk<'static>, id: u32) -> (r: Option<
    PartitionExtent,
>)
    ensures
        match r {
            Some(e) => gpt_table(*d).dom().contains(id) ==> (e.name@ == gpt_table(*d)[id].0
                && e.first_lba == gpt_table(*d)[id].1 && e.last_lba == gpt_table(*d)[id].2),
            None => !gpt_table(*d).dom().contains(id),
        },
{
    d.partitions().get(&id).map(|p| PartitionExtent {
        name: p.name.clone(),
        first_lba: p.first_lba,
        last_lba: p.last_lba,
        part_uuid: p.part_guid.to_string(),
    })
}

/// Relies on gpt::GptDisk::partitions: hands the table's entries out with
/// their ids, in ascending id order, as plain values.
#[verifier::external_body]
pub(crate) fn gpt_list_partitions(d: &gpt::GptDisk<'static>) -> (r: Vec<(u32, PartitionExtent)>)
    ensures
        gpt_listing(gpt_table(*d), r@),
{
    d.partitions().iter().map(|(id, p)| (*id, PartitionExtent {
        name: p.name.clone(),
        first_lba: p.first_lba,
        last_lba: p.last_lba,
        part_uuid: p.part_guid.to_string(),
    })).collect()
}

/// Relies on gpt::GptDisk::find_free_sectors: the free extents between the
/// table's entries within the usable range, a function of the disk's headers
/// and entries alone.
#[verifier::external_body]
pub(crate) fn gpt_find_free_sectors(d: &gpt::GptDisk<'static>) -> (r: Vec<(u64, u64)>)
    ensures
        r@ == gpt_free_extents(*d),
{
    d.find_free_sectors()
}

/// Relies on gpt::GptDisk::write_inplace: persists the headers and entries
/// to the device and flushes; the in-memory table is left as it is.
#[verifier::external_body]
pub(crate) fn gpt_write_table(d: &mut gpt::GptDisk<'static>) -> (r: Result<(), String>)
    requires
        gpt_writable_512(*old(d)),
        gpt_ready(*old(d)),
    ensures
        gpt_writable_512(*final(d)),
        gpt_ready(*final(d)),
        gpt_table(*final(d)) == gpt_table(*old(d)),
        gpt_free_extents(*final(d)) == gpt_free_extents(*old(d)),
        r is Ok ==> gpt_device_table(*final(d)) == gpt_table(*old(d)),
{
    d.write_inplace().map_err(|e| e.to_string())
}

} // verus!
