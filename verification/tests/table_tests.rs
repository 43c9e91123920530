use std::io::Cursor;
use diskflash::parts::{partition_name_to_type, PartitionDefinition, PartitionType};
use diskflash::planner::{parse_partition, reorder_partitions};
use diskflash::parts::FlashError;
use diskflash::table::{build_partition_table, create_partition_table, mbr_sector_count, plan_flash,
    should_create_userdata, FlashPlan};

const MIB: u64 = 1024 * 1024;

fn open_mem_disk(bytes: usize) -> gpt::GptDisk<'static> {
    let buffer = vec![0u8; bytes];
    let device: gpt::DiskDeviceObject = Box::new(Cursor::new(buffer));
    gpt::GptConfig::new()
        .initialized(false)
        .writable(true)
        .logical_block_size(gpt::disk::LogicalBlockSize::Lb512)
        .open_from_device(device)
        .expect("in-memory disk")
}

fn blank(name: &str, size: u64) -> PartitionDefinition {
    PartitionDefinition { partition_name: name.to_string(), source_file: None, size }
}

#[test]
fn mbr_sector_count_caps_at_32_bits() {
    assert_eq!(mbr_sector_count(1024), 1);
    assert_eq!(mbr_sector_count(64 * MIB) as u64, 64 * MIB / 512 - 1);
    assert_eq!(mbr_sector_count(u64::MAX), u32::MAX);
}

#[test]
fn flash_plan_decisions() {
    assert_eq!(plan_flash(0, false, None, 99), FlashPlan::Skip);
    assert_eq!(plan_flash(0, true, None, 99), FlashPlan::File { size: 99 });
    assert_eq!(plan_flash(2, false, Some(1000), 99), FlashPlan::Device { size: 1000 });
    assert_eq!(plan_flash(2, false, None, 99), FlashPlan::File { size: 99 });
}

#[test]
fn userdata_wanted_iff_no_data_request() {
    assert!(should_create_userdata(&vec![blank("boot", 1), blank("misc", 2)]));
    assert!(!should_create_userdata(&vec![blank("boot", 1), blank("userdata", 2)]));
    assert!(should_create_userdata(&vec![]));
}

#[test]
fn scenario_one_file_backed_boot_partition() {
    // One 4 MiB file-backed request on an empty 64 MiB destination.
    let def = parse_partition("boot".to_string(), "./boot.img".to_string(), 4 * MIB).unwrap();
    let plan = reorder_partitions(vec![def]);
    let mut disk = open_mem_disk(64 * MIB as usize);
    let created =
        create_partition_table(&mut disk, &"mem".to_string(), &plan, None).unwrap();

    assert_eq!(created.len(), 2);

    let boot = &created[0];
    assert_eq!(boot.part_type, PartitionType::Boot);
    let boot_def = boot.def.as_ref().unwrap();
    assert_eq!(boot_def.partition_name, "boot");
    assert_eq!(boot_def.size, 8 * MIB);
    assert_eq!(boot.partition.name, "boot");
    // Starts at the first-partition alignment offset: 8 MiB in blocks.
    assert_eq!(boot.partition.first_lba, 8 * MIB / 512);
    // Covers exactly 8 MiB.
    assert_eq!(boot.partition.last_lba, 8 * MIB / 512 + 8 * MIB / 512 - 1);

    let userdata = &created[1];
    assert!(userdata.def.is_none());
    assert_eq!(userdata.part_type, PartitionType::Data);
    assert_eq!(userdata.partition.name, "userdata");
    // The trailing partition consumes the free extent after "boot".
    assert_eq!(userdata.partition.first_lba, 2 * 8 * MIB / 512);
    assert!(userdata.partition.last_lba > userdata.partition.first_lba);
}

#[test]
fn scenario_bootloader_request_is_committed_before_blank() {
    // A blank request and a file-backed bootloader request: "uboot" is
    // committed before "misc" whatever the input order.
    let uboot =
        parse_partition("uboot".to_string(), "./u-boot.bin".to_string(), 100 * 1024).unwrap();
    let plan = reorder_partitions(vec![blank("misc", MIB), uboot]);
    assert_eq!(plan[0].partition_name, "uboot");
    assert_eq!(plan[1].partition_name, "misc");

    let mut disk = open_mem_disk(64 * MIB as usize);
    let created =
        create_partition_table(&mut disk, &"mem".to_string(), &plan, None).unwrap();
    assert_eq!(created.len(), 3);
    assert_eq!(created[0].partition.name, "uboot");
    assert_eq!(created[1].partition.name, "misc");
    assert_eq!(created[2].partition.name, "userdata");
    // The first committed entry gets the first-partition alignment, the
    // second the default alignment.
    assert_eq!(created[0].partition.first_lba % (8 * MIB / 512), 0);
    assert_eq!(created[1].partition.first_lba % (MIB / 512), 0);
}

#[test]
fn scenario_pre_bootloader_rounds_to_its_alignment_and_comes_first() {
    // A 200 KiB pre-bootloader: its size rounds up to the 32 KiB boundary
    // and it is the first partition on disk.
    let def = parse_partition("boot".to_string(), "./boot.img".to_string(), 4 * MIB).unwrap();
    let plan = reorder_partitions(vec![def]);
    let mut disk = open_mem_disk(64 * MIB as usize);
    let created = create_partition_table(
        &mut disk,
        &"mem".to_string(),
        &plan,
        Some(("./idbloader.img".to_string(), 200 * 1024)),
    )
    .unwrap();

    assert_eq!(created.len(), 3);
    let idb = &created[0];
    let idb_def = idb.def.as_ref().unwrap();
    assert_eq!(idb_def.partition_name, "idbloader");
    assert_eq!(idb_def.source_file, Some("./idbloader.img".to_string()));
    assert_eq!(idb_def.size, 229376);
    assert_eq!(idb.part_type, PartitionType::Bootloader);
    assert_eq!(idb.partition.name, "idbloader");
    assert_eq!(idb.partition.first_lba % 64, 0);
    assert!(idb.partition.first_lba < created[1].partition.first_lba);
    // 229376 bytes cover 448 blocks.
    assert_eq!(idb.partition.last_lba, idb.partition.first_lba + 448 - 1);
}

#[test]
fn no_trailing_userdata_when_a_request_classifies_as_data() {
    let plan = reorder_partitions(vec![blank("userdata", MIB)]);
    let mut disk = open_mem_disk(64 * MIB as usize);
    let created =
        create_partition_table(&mut disk, &"mem".to_string(), &plan, None).unwrap();
    assert_eq!(created.len(), 1);
    assert_eq!(created[0].partition.name, "userdata");
    assert!(created[0].def.is_some());
}

#[test]
fn trailing_userdata_when_no_request_classifies_as_data() {
    let plan = reorder_partitions(vec![blank("misc", MIB)]);
    let mut disk = open_mem_disk(64 * MIB as usize);
    let created =
        create_partition_table(&mut disk, &"mem".to_string(), &plan, None).unwrap();
    assert_eq!(created.len(), 2);
    assert_eq!(created[1].partition.name, "userdata");
    assert!(created[1].def.is_none());
}

#[test]
fn partition_classification_drives_commit() {
    // The classification itself, for the names used in these scenarios.
    assert_eq!(partition_name_to_type("uboot"), PartitionType::Bootloader);
    assert_eq!(partition_name_to_type("misc"), PartitionType::Misc);
    assert_eq!(partition_name_to_type("userdata"), PartitionType::Data);
}

#[test]
fn zero_sized_entry_is_rejected_naming_it() {
    let plan = vec![blank("misc", 0)];
    let mut disk = open_mem_disk(8 * MIB as usize);
    let err = create_partition_table(&mut disk, &"mem".to_string(), &plan, None).unwrap_err();
    match err {
        FlashError::TableConstruction { name, size, .. } => {
            assert_eq!(name, "misc");
            assert_eq!(size, 0);
        }
        other => panic!("unexpected error: {:?}", other),
    }
}

#[test]
fn entry_larger_than_the_destination_is_rejected_naming_it() {
    let plan = vec![blank("boot", 512 * MIB)];
    let mut disk = open_mem_disk(8 * MIB as usize);
    let err = create_partition_table(&mut disk, &"mem".to_string(), &plan, None).unwrap_err();
    match err {
        FlashError::TableConstruction { name, size, .. } => {
            assert_eq!(name, "boot");
            assert_eq!(size, 512 * MIB);
        }
        other => panic!("unexpected error: {:?}", other),
    }
}

#[test]
fn unopenable_destination_is_an_io_error_naming_it() {
    let missing = "missing-destination.img".to_string();
    let err = build_partition_table(&missing, &vec![blank("misc", MIB)], None).unwrap_err();
    match err {
        FlashError::Io { path, .. } => assert_eq!(path, missing),
        other => panic!("unexpected error: {:?}", other),
    }
}
