//! Sequencing the construction of the partition table: clearing any existing
//! entries, committing the pre-bootloader partition first, committing the
//! planned entries in order at their alignment class, adding the trailing
//! catch-all partition when no planned entry classifies as data, and
//! persisting the table. Each step is fatal on failure: nothing is retried
//! and nothing already written is rolled back.

use vstd::prelude::*;
use vstd::arithmetic::div_mod::{lemma_div_is_ordered, lemma_fundamental_div_mod_converse_div};
use crate::alignment::{align_up, spec_align_up};
use crate::gpt_io::{gpt_add_partition, gpt_clear_partitions, gpt_device_table, gpt_find_free_sectors,
    gpt_free_extents, gpt_open_for_writing, gpt_partition_extent, gpt_ready, gpt_table,
    gpt_writable_512, gpt_write_table};
use crate::parts::{CreatedPartition, FlashError, PartitionDefinition, PartitionType,
    partition_name_to_flags, partition_name_to_type, type_of_name};
use crate::{FIRST_PART_ALIGNMENT, IDBLOADER_ALIGNMENT, IDBLOADER_ALIGNMENT_LBA, LBA_SIZE,
    PART_ALIGNMENT};

verus! {

/// The entry classifies as a data partition.
pub open spec fn is_data_def(d: PartitionDefinition) -> bool {
    type_of_name(d.partition_name@) == PartitionType::Data
}

/// Some entry of the plan classifies as a data partition.
pub open spec fn has_data_partition(s: Seq<PartitionDefinition>) -> bool {
    exists|i: int| 0 <= i < s.len() && is_data_def(#[trigger] s[i])
}

/// The trailing catch-all partition is wanted exactly when no planned entry
/// classifies as a data partition.
pub fn should_create_userdata(partitions: &Vec<PartitionDefinition>) -> (r: bool)
    ensures
        r == !has_data_partition(partitions@),
{
    let n = partitions.len();
    let mut i: usize = 0;
    while i < n
        invariant
            n == partitions@.len(),
            i <= n,
            forall|k: int| 0 <= k < i ==> !is_data_def(#[trigger] partitions@[k]),
        decreases n - i,
    {
        if partition_name_to_type(partitions[i].partition_name.as_str()) == PartitionType::Data {
            return false;
        }
        i += 1;
    }
    true
}

/// Alignment, in logical blocks, of the planned entry at position `i`: the
/// first entry gets the first-partition alignment, the rest the default.
pub open spec fn spec_alignment_lba(i: int) -> u64 {
    if i == 0 {
        FIRST_PART_ALIGNMENT / LBA_SIZE
    } else {
        PART_ALIGNMENT / LBA_SIZE
    }
}

/// The committed partition `c` is what the plan entry `d` must come out as
/// at alignment class `align_lba`: it keeps the entry, its table entry
/// carries the entry's name, its start is aligned, and its extent covers
/// exactly ceil(size/512) blocks.
pub open spec fn created_matches(c: CreatedPartition, d: PartitionDefinition, align_lba: u64) -> bool {
    &&& c.def == Some(d)
    &&& c.part_type == type_of_name(d.partition_name@)
    &&& c.partition.name@ == d.partition_name@
    &&& c.partition.first_lba % align_lba == 0
    &&& c.partition.last_lba == c.partition.first_lba + (d.size - 1) / 512
}

/// The committed pre-bootloader partition for the request `t` (source path,
/// source length): named by the fixed reserved name, sized to the source
/// length rounded up to the pre-bootloader alignment, at that alignment.
pub open spec fn idb_entry_matches(c: CreatedPartition, t: (String, u64)) -> bool {
    &&& c.def matches Some(d) && d.partition_name@ == "idbloader"@ && d.source_file == Some(t.0)
        && d.size == spec_align_up(t.1, IDBLOADER_ALIGNMENT)
    &&& c.part_type == PartitionType::Bootloader
    &&& c.partition.name@ == "idbloader"@
    &&& c.partition.first_lba % IDBLOADER_ALIGNMENT_LBA == 0
    &&& c.partition.last_lba == c.partition.first_lba + (spec_align_up(t.1, IDBLOADER_ALIGNMENT)
        - 1) / 512
}

/// The implicitly created trailing partition: it carries no plan entry, is
/// named "userdata", and starts at the default alignment.
pub open spec fn userdata_entry(c: CreatedPartition) -> bool {
    &&& c.def is None
    &&& c.part_type == PartitionType::Data
    &&& c.partition.name@ == "userdata"@
    &&& c.partition.first_lba % (PART_ALIGNMENT / LBA_SIZE) == 0
}

/// One for a pre-bootloader request, none otherwise.
pub open spec fn idb_count(idb: Option<(String, u64)>) -> int {
    if idb is Some {
        1int
    } else {
        0int
    }
}

/// The extent stands in the table under some entry id.
pub open spec fn extent_in_table(
    t: Map<u32, (Seq<char>, u64, u64)>,
    e: crate::parts::PartitionExtent,
) -> bool {
    exists|id: u32| t.dom().contains(id) && t[id] == (e.name@, e.first_lba, e.last_lba)
}

/// Every committed partition's extent stands in the table.
pub open spec fn extents_in_table(
    t: Map<u32, (Seq<char>, u64, u64)>,
    s: Seq<CreatedPartition>,
) -> bool {
    forall|k: int| 0 <= k < s.len() ==> extent_in_table(t, (#[trigger] s[k]).partition)
}

/// Every entry of the table is the extent of one of the committed partitions.
#[verifier::opaque]
pub open spec fn table_covered_by(
    t: Map<u32, (Seq<char>, u64, u64)>,
    s: Seq<CreatedPartition>,
) -> bool {
    forall|id: u32|
        #[trigger] t.dom().contains(id) ==> exists|k: int|
            0 <= k < s.len() && t[id] == (s[k].partition.name@, s[k].partition.first_lba,
            s[k].partition.last_lba)
}

/// Length in blocks of the largest free extent of `s`.
pub open spec fn max_free_len(s: Seq<(u64, u64)>) -> u64
    decreases s.len(),
{
    if s.len() == 0 {
        0u64
    } else {
        let rest = max_free_len(s.drop_last());
        if s.last().1 > rest {
            s.last().1
        } else {
            rest
        }
    }
}

/// A table-construction error names the request whose add was rejected: the
/// pre-bootloader, one of the planned entries, or the trailing partition,
/// with that request's size (or zero, for a zero-sized request).
pub open spec fn names_failed_step(
    name: String,
    size: u64,
    partitions: Seq<PartitionDefinition>,
    idb: Option<(String, u64)>,
) -> bool {
    ||| idb matches Some(t) && name@ == "idbloader"@ && (size == spec_align_up(
        t.1,
        IDBLOADER_ALIGNMENT,
    ) || size == 0)
    ||| name@ == "userdata"@
    ||| exists|k: int|
        0 <= k < partitions.len() && name == (#[trigger] partitions[k]).partition_name && (size
            == partitions[k].size || size == 0)
}

proof fn lemma_table_grow(
    t: Map<u32, (Seq<char>, u64, u64)>,
    id: u32,
    v: (Seq<char>, u64, u64),
    s: Seq<CreatedPartition>,
)
    requires
        !t.dom().contains(id),
        extents_in_table(t, s),
    ensures
        extents_in_table(t.insert(id, v), s),
{
    assert forall|k: int| 0 <= k < s.len() implies extent_in_table(
        t.insert(id, v),
        (#[trigger] s[k]).partition,
    ) by {
        let e = s[k].partition;
        let id0 = choose|id0: u32| t.dom().contains(id0) && t[id0] == (e.name@, e.first_lba,
        e.last_lba);
        assert(t.insert(id, v).dom().contains(id0));
        assert(t.insert(id, v)[id0] == (e.name@, e.first_lba, e.last_lba));
    };
}

proof fn lemma_table_cover_grow(
    t: Map<u32, (Seq<char>, u64, u64)>,
    id: u32,
    v: (Seq<char>, u64, u64),
    s: Seq<CreatedPartition>,
    c: CreatedPartition,
)
    requires
        table_covered_by(t, s),
        v == (c.partition.name@, c.partition.first_lba, c.partition.last_lba),
    ensures
        table_covered_by(t.insert(id, v), s.push(c)),
{
    reveal(table_covered_by);
    assert forall|id0: u32| #[trigger] t.insert(id, v).dom().contains(id0) implies exists|k: int|
        0 <= k < s.push(c).len() && t.insert(id, v)[id0] == (s.push(c)[k].partition.name@,
        s.push(c)[k].partition.first_lba, s.push(c)[k].partition.last_lba) by {
        if id0 == id {
            let k = s.len() as int;
            assert(s.push(c)[k] == c);
            assert(t.insert(id, v)[id0] == (s.push(c)[k].partition.name@,
            s.push(c)[k].partition.first_lba, s.push(c)[k].partition.last_lba));
        } else {
            let k = choose|k: int|
                0 <= k < s.len() && t[id0] == (s[k].partition.name@, s[k].partition.first_lba,
                s[k].partition.last_lba);
            assert(s.push(c)[k] == s[k]);
            assert(t.insert(id, v)[id0] == (s.push(c)[k].partition.name@,
            s.push(c)[k].partition.first_lba, s.push(c)[k].partition.last_lba));
        }
    };
}

/// Any byte size in blocks stays far enough below the ceiling to leave room
/// for the largest alignment a caller may ask for.
proof fn lemma_size_lba_bound(size: u64)
    requires
        size >= 1,
    ensures
        (size - 1) / 512 + 0x10000 <= u64::MAX,
{
    lemma_div_is_ordered((size - 1) as int, (u64::MAX - 1) as int, 512);
}

/// The sector count the protective record describes: the whole-disk extent
/// in 512-byte sectors less the record's own sector, capped at the 32-bit
/// maximum where the true count overflows it.
pub fn mbr_sector_count(device_size: u64) -> (r: u32)
    requires
        device_size >= 512,
    ensures
        device_size / 512 - 1 <= u32::MAX ==> r == device_size / 512 - 1,
        device_size / 512 - 1 > u32::MAX ==> r == u32::MAX,
{
    proof {
        lemma_div_is_ordered(512, device_size as int, 512);
    }
    let sectors = device_size / 512 - 1;
    if sectors > 0xFFFF_FFFF {
        0xFFFF_FFFF
    } else {
        sectors as u32
    }
}

/// What the flashing phase is to do with the destination.
#[derive(Debug, PartialEq, Eq, Structural)]
pub enum FlashPlan {
    /// No partitions and no pre-bootloader: nothing to flash, skip the phase.
    Skip,
    /// A regular file: grow it to the requested size, then write.
    File { size: u64 },
    /// A block device: its real capacity is authoritative and the requested
    /// size is ignored; erase the device's start, then write.
    Device { size: u64 },
}

/// Decides the flashing phase: skip when there is nothing to flash; on a
/// block device take its capacity, ignoring the requested size; on a file
/// take the requested size.
pub fn plan_flash(
    partition_count: usize,
    has_idbloader: bool,
    device_capacity: Option<u64>,
    requested_size: u64,
) -> (r: FlashPlan)
    ensures
        (partition_count == 0 && !has_idbloader) <==> r is Skip,
        !(r is Skip) ==> match device_capacity {
            Some(c) => r == (FlashPlan::Device { size: c }),
            None => r == (FlashPlan::File { size: requested_size }),
        },
{
    if partition_count == 0 && !has_idbloader {
        return FlashPlan::Skip;
    }
    match device_capacity {
        Some(c) => FlashPlan::Device { size: c },
        None => FlashPlan::File { size: requested_size },
    }
}

/// `newc` extends `oldc` by one trailing "userdata" entry whose extent is
/// `best` blocks long.
pub open spec fn userdata_appended(
    oldc: Seq<CreatedPartition>,
    newc: Seq<CreatedPartition>,
    best: u64,
) -> bool {
    &&& newc == oldc.push(newc.last())
    &&& newc.len() == oldc.len() + 1
    &&& userdata_entry(newc.last())
    &&& newc.last().partition.last_lba + 1 - newc.last().partition.first_lba == best
}

/// Adds the implicitly created trailing partition: when the table still has
/// a non-empty free extent, a partition named "userdata" sized to the
/// largest such extent is appended to the table and to `created`; with no
/// free block left, nothing happens. The committed-partition invariants are
/// carried along.
pub fn add_trailing_userdata(
    disk: &mut gpt::GptDisk<'static>,
    created: &mut Vec<CreatedPartition>,
) -> (r: Result<(), FlashError>)
    requires
        gpt_writable_512(*old(disk)),
        gpt_ready(*old(disk)),
    ensures
        gpt_writable_512(*final(disk)),
        gpt_ready(*final(disk)),
        gpt_device_table(*final(disk)) == gpt_device_table(*old(disk)),
        match r {
            Ok(_) => {
                &&& max_free_len(gpt_free_extents(*old(disk))) == 0 ==> (final(created)@ == old(
                    created,
                )@ && gpt_table(*final(disk)) == gpt_table(*old(disk)) && gpt_free_extents(
                    *final(disk),
                ) == gpt_free_extents(*old(disk)))
                &&& max_free_len(gpt_free_extents(*old(disk))) > 0 ==> userdata_appended(
                    old(created)@,
                    final(created)@,
                    max_free_len(gpt_free_extents(*old(disk))),
                )
                &&& extents_in_table(gpt_table(*old(disk)), old(created)@) ==> extents_in_table(
                    gpt_table(*final(disk)),
                    final(created)@,
                )
                &&& table_covered_by(gpt_table(*old(disk)), old(created)@) ==> table_covered_by(
                    gpt_table(*final(disk)),
                    final(created)@,
                )
            },
            Err(e) => {
                &&& ((e matches FlashError::TableConstruction { name, .. } && name@
                    == "userdata"@) || e matches FlashError::SizeOverflow { .. })
                &&& gpt_table(*final(disk)) == gpt_table(*old(disk))
                &&& final(created)@ == old(created)@
            },
        },
{
    let free = gpt_find_free_sectors(disk);
    let mut best_len: u64 = 0;
    let mut k: usize = 0;
    let fl = free.len();
    while k < fl
        invariant
            fl == free@.len(),
            k <= fl,
            best_len == max_free_len(free@.subrange(0, k as int)),
        decreases fl - k,
    {
        proof {
            let pre = free@.subrange(0, k as int);
            let post = free@.subrange(0, k + 1);
            assert(post.drop_last() =~= pre);
            assert(post.last() == free@[k as int]);
        }
        if free[k].1 > best_len {
            best_len = free[k].1;
        }
        k += 1;
    }
    proof {
        assert(free@.subrange(0, fl as int) =~= free@);
    }
    if best_len == 0 {
        return Ok(());
    }
    if best_len > u64::MAX / LBA_SIZE {
        return Err(FlashError::SizeOverflow { value: best_len, align: LBA_SIZE });
    }
    let part_size = best_len * LBA_SIZE;
    proof {
        lemma_size_lba_bound(part_size);
    }
    let ghost t_old = gpt_table(*disk);
    let id = match gpt_add_partition(
        disk,
        "userdata",
        part_size,
        PartitionType::Data,
        0,
        PART_ALIGNMENT / LBA_SIZE,
    ) {
        Ok(id) => id,
        Err(detail) => {
            return Err(FlashError::TableConstruction {
                name: "userdata".to_owned(),
                size: part_size,
                detail,
            });
        },
    };
    proof {
        if extents_in_table(t_old, created@) {
            lemma_table_grow(t_old, id, gpt_table(*disk)[id], created@);
        }
        lemma_fundamental_div_mod_converse_div(
            part_size - 1,
            512,
            best_len - 1,
            511,
        );
    }
    let ext = match gpt_partition_extent(disk, id) {
        Some(e) => e,
        None => {
            proof {
                assert(false);
            }
            return Err(FlashError::TableConstruction {
                name: "userdata".to_owned(),
                size: part_size,
                detail: "created entry not found in the table".to_owned(),
            });
        },
    };
    let ghost pre_push = created@;
    created.push(CreatedPartition { def: None, partition: ext, part_type: PartitionType::Data });
    proof {
        if table_covered_by(t_old, pre_push) {
            lemma_table_cover_grow(t_old, id, gpt_table(*disk)[id], pre_push, created@.last());
        }
    }
    Ok(())
}

/// Commits the plan to the table: clears any pre-existing entries, adds the
/// pre-bootloader partition first if one was requested, adds every planned
/// entry in order (the first at the first-partition alignment, the rest at
/// the default alignment), adds a trailing "userdata" partition over the
/// largest free extent when no planned entry classifies as data and a
/// non-empty free extent remains, and persists the table. The first failing
/// step aborts the rest; nothing already committed is rolled back.
#[verifier::rlimit(60)]
pub fn create_partition_table(
    disk: &mut gpt::GptDisk<'static>,
    destination: &String,
    partitions: &Vec<PartitionDefinition>,
    idbloader: Option<(String, u64)>,
) -> (r: Result<Vec<CreatedPartition>, FlashError>)
    requires
        gpt_writable_512(*old(disk)),
    ensures
        gpt_writable_512(*final(disk)),
        match r {
            Ok(created) => {
                &&& gpt_ready(*final(disk))
                &&& idbloader matches Some(t) ==> t.1 <= u64::MAX - IDBLOADER_ALIGNMENT
                    && created@.len() >= 1 && idb_entry_matches(created@[0], t)
                &&& created@.len() == idb_count(idbloader) + partitions@.len() || (created@.len()
                    == idb_count(idbloader) + partitions@.len() + 1 && !has_data_partition(
                    partitions@,
                ) && userdata_entry(created@.last()))
                &&& has_data_partition(partitions@) ==> created@.len() == idb_count(idbloader)
                    + partitions@.len()
                &&& !has_data_partition(partitions@) && created@.len() == idb_count(idbloader)
                    + partitions@.len() ==> max_free_len(gpt_free_extents(*final(disk))) == 0
                &&& forall|k: int|
                    0 <= k < partitions@.len() ==> partitions@[k].size >= 1 && created_matches(
                        #[trigger] created@[idb_count(idbloader) + k],
                        partitions@[k],
                        spec_alignment_lba(k),
                    )
                &&& extents_in_table(gpt_table(*final(disk)), created@)
                &&& table_covered_by(gpt_table(*final(disk)), created@)
                &&& gpt_device_table(*final(disk)) == gpt_table(*final(disk))
            },
            Err(e) => {
                &&& (e matches FlashError::Io { .. } || e matches FlashError::SizeOverflow {
                    ..
                } || e matches FlashError::TableConstruction { .. })
                &&& (e matches FlashError::TableConstruction { name, size, .. }
                    ==> names_failed_step(name, size, partitions@, idbloader))
                &&& ((e matches FlashError::TableConstruction { .. } || e
                    matches FlashError::SizeOverflow { .. }) ==> gpt_device_table(*final(disk))
                    == gpt_device_table(*old(disk)))
            },
        },
{
    let ghost off: int = idb_count(idbloader);
    let mut created: Vec<CreatedPartition> = Vec::new();

    match gpt_clear_partitions(disk) {
        Ok(_) => (),
        Err(detail) => {
            return Err(FlashError::Io { path: destination.clone(), detail });
        },
    }
    proof {
        reveal(table_covered_by);
        assert(table_covered_by(gpt_table(*disk), created@));
    }

    match idbloader {
        None => (),
        Some((path, len)) => {
            if len > u64::MAX - IDBLOADER_ALIGNMENT {
                return Err(FlashError::SizeOverflow { value: len, align: IDBLOADER_ALIGNMENT });
            }
            let loader_size = align_up(len, IDBLOADER_ALIGNMENT);
            if loader_size == 0 {
                return Err(FlashError::TableConstruction {
                    name: "idbloader".to_owned(),
                    size: 0,
                    detail: "partition size must be at least one byte".to_owned(),
                });
            }
            proof {
                lemma_size_lba_bound(loader_size);
            }
            let ghost t_old = gpt_table(*disk);
            let id = match gpt_add_partition(
                disk,
                "idbloader",
                loader_size,
                PartitionType::Bootloader,
                0,
                IDBLOADER_ALIGNMENT_LBA,
            ) {
                Ok(id) => id,
                Err(detail) => {
                    return Err(FlashError::TableConstruction {
                        name: "idbloader".to_owned(),
                        size: loader_size,
                        detail,
                    });
                },
            };
            proof {
                lemma_table_grow(t_old, id, gpt_table(*disk)[id], created@);
            }
            let ext = match gpt_partition_extent(disk, id) {
                Some(e) => e,
                None => {
                    return Err(FlashError::TableConstruction {
                        name: "idbloader".to_owned(),
                        size: loader_size,
                        detail: "created entry not found in the table".to_owned(),
                    });
                },
            };
            let ghost pre_push = created@;
            created.push(CreatedPartition {
                def: Some(PartitionDefinition {
                    partition_name: "idbloader".to_owned(),
                    source_file: Some(path),
                    size: loader_size,
                }),
                partition: ext,
                part_type: PartitionType::Bootloader,
            });
            proof {
                lemma_table_cover_grow(t_old, id, gpt_table(*disk)[id], pre_push, created@.last());
            }
        },
    }

    let n = partitions.len();
    let mut i: usize = 0;
    while i < n
        invariant
            n == partitions@.len(),
            i <= n,
            off == idb_count(idbloader),
            created@.len() == off + i,
            gpt_ready(*disk),
            gpt_writable_512(*disk),
            idbloader matches Some(t) ==> t.1 <= u64::MAX - IDBLOADER_ALIGNMENT && created@.len()
                >= 1 && idb_entry_matches(created@[0], t),
            forall|k: int| 0 <= k < i ==> partitions@[k].size >= 1,
            forall|k: int|
                0 <= k < i ==> created_matches(
                    #[trigger] created@[off + k],
                    partitions@[k],
                    spec_alignment_lba(k),
                ),
            extents_in_table(gpt_table(*disk), created@),
            table_covered_by(gpt_table(*disk), created@),
            gpt_device_table(*disk) == gpt_device_table(*old(disk)),
        decreases n - i,
    {
        let def = &partitions[i];
        if def.size == 0 {
            return Err(FlashError::TableConstruction {
                name: def.partition_name.clone(),
                size: 0,
                detail: "partition size must be at least one byte".to_owned(),
            });
        }
        let alignment_lba = if i == 0 {
            FIRST_PART_ALIGNMENT / LBA_SIZE
        } else {
            PART_ALIGNMENT / LBA_SIZE
        };
        proof {
            lemma_size_lba_bound(def.size);
        }
        let part_type = partition_name_to_type(def.partition_name.as_str());
        let flags = partition_name_to_flags(def.partition_name.as_str());
        let ghost t_old = gpt_table(*disk);
        let id = match gpt_add_partition(
            disk,
            def.partition_name.as_str(),
            def.size,
            part_type,
            flags,
            alignment_lba,
        ) {
            Ok(id) => id,
            Err(detail) => {
                return Err(FlashError::TableConstruction {
                    name: def.partition_name.clone(),
                    size: def.size,
                    detail,
                });
            },
        };
        proof {
            lemma_table_grow(t_old, id, gpt_table(*disk)[id], created@);
        }
        let ext = match gpt_partition_extent(disk, id) {
            Some(e) => e,
            None => {
                return Err(FlashError::TableConstruction {
                    name: def.partition_name.clone(),
                    size: def.size,
                    detail: "created entry not found in the table".to_owned(),
                });
            },
        };
        let ghost pre_push = created@;
        created.push(CreatedPartition { def: Some(def.clone()), partition: ext, part_type });
        proof {
            lemma_table_cover_grow(t_old, id, gpt_table(*disk)[id], pre_push, created@.last());
        }
        i += 1;
    }

    if should_create_userdata(partitions) {
        match add_trailing_userdata(disk, &mut created) {
            Ok(_) => (),
            Err(e) => {
                return Err(e);
            },
        }
    }

    match gpt_write_table(disk) {
        Ok(_) => (),
        Err(detail) => {
            return Err(FlashError::Io { path: destination.clone(), detail });
        },
    }

    Ok(created)
}

/// Opens the destination for writing and commits the plan to a fresh table
/// on it: the sequence of clearing, committing the pre-bootloader partition,
/// committing the planned entries, adding the trailing partition, and
/// persisting, with the first failure aborting the rest.
pub fn build_partition_table(
    destination: &String,
    partitions: &Vec<PartitionDefinition>,
    idbloader: Option<(String, u64)>,
) -> (r: Result<Vec<CreatedPartition>, FlashError>)
    ensures
        match r {
            Ok(created) => {
                &&& idbloader matches Some(t) ==> t.1 <= u64::MAX - IDBLOADER_ALIGNMENT
                    && created@.len() >= 1 && idb_entry_matches(created@[0], t)
                &&& created@.len() == idb_count(idbloader) + partitions@.len() || (created@.len()
                    == idb_count(idbloader) + partitions@.len() + 1 && !has_data_partition(
                    partitions@,
                ) && userdata_entry(created@.last()))
                &&& has_data_partition(partitions@) ==> created@.len() == idb_count(idbloader)
                    + partitions@.len()
                &&& forall|k: int|
                    0 <= k < partitions@.len() ==> partitions@[k].size >= 1 && created_matches(
                        #[trigger] created@[idb_count(idbloader) + k],
                        partitions@[k],
                        spec_alignment_lba(k),
                    )
            },
            Err(e) => {
                &&& (e matches FlashError::Io { .. } || e matches FlashError::SizeOverflow {
                    ..
                } || e matches FlashError::TableConstruction { .. })
                &&& (e matches FlashError::TableConstruction { name, size, .. }
                    ==> names_failed_step(name, size, partitions@, idbloader))
            },
        },
{
    let mut disk = match gpt_open_for_writing(destination.as_str()) {
        Ok(d) => d,
        Err(detail) => {
            return Err(FlashError::Io { path: destination.clone(), detail });
        },
    };
    let ghost idb = idbloader;
    match create_partition_table(&mut disk, destination, partitions, idbloader) {
        Err(e) => Err(e),
        Ok(created) => {
            proof {
                assert forall|k: int| 0 <= k < partitions@.len() implies partitions@[k].size
                    >= 1 by {
                    assert(created_matches(
                        created@[idb_count(idb) + k],
                        partitions@[k],
                        spec_alignment_lba(k),
                    ));
                };
            }
            Ok(created)
        },
    }
}

} // verus!
