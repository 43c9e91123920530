use diskflash::parts::{CreatedPartition, PartitionDefinition, PartitionExtent, PartitionType};
use diskflash::writer::{image_copy_step, partition_byte_len, partition_start, zero_fill_ops,
    zero_fill_remainder_ops};

fn extent(name: &str, first: u64, last: u64) -> PartitionExtent {
    PartitionExtent {
        name: name.to_string(),
        first_lba: first,
        last_lba: last,
        part_uuid: "0".to_string(),
    }
}

#[test]
fn start_and_length_come_from_the_block_extent() {
    let p = extent("boot", 16384, 32767);
    assert_eq!(partition_start(&p), 8 * 1024 * 1024);
    assert_eq!(partition_byte_len(&p).unwrap(), 8 * 1024 * 1024);

    let one = extent("misc", 2048, 2048);
    assert_eq!(partition_byte_len(&one).unwrap(), 512);

    let bad = extent("bad", 10, 9);
    assert!(partition_byte_len(&bad).is_err());
}

#[test]
fn copy_step_only_for_source_backed_partitions() {
    let with_source = CreatedPartition {
        def: Some(PartitionDefinition {
            partition_name: "boot".to_string(),
            source_file: Some("./boot.img".to_string()),
            size: 512,
        }),
        partition: extent("boot", 2048, 4095),
        part_type: PartitionType::Boot,
    };
    assert_eq!(
        image_copy_step(&with_source),
        Some((2048 * 512, "./boot.img".to_string()))
    );

    let blank = CreatedPartition {
        def: Some(PartitionDefinition {
            partition_name: "misc".to_string(),
            source_file: None,
            size: 512,
        }),
        partition: extent("misc", 4096, 4097),
        part_type: PartitionType::Misc,
    };
    assert_eq!(image_copy_step(&blank), None);

    let implicit = CreatedPartition {
        def: None,
        partition: extent("userdata", 8192, 9999),
        part_type: PartitionType::Data,
    };
    assert_eq!(image_copy_step(&implicit), None);
}

#[test]
fn zero_fill_covers_exactly_the_remainder() {
    // 100000 bytes remain after 31072 copied bytes of a 131072-byte extent.
    let ops = zero_fill_remainder_ops(0, 131072, 31072);
    let total: u64 = ops.iter().map(|op| op.1).sum();
    assert_eq!(31072 + total, 131072);
    // All chunks but the last are full 32 KiB writes; the last is truncated.
    assert_eq!(ops.len(), 4);
    assert_eq!(ops[0], (31072, 32768));
    assert_eq!(ops[1], (31072 + 32768, 32768));
    assert_eq!(ops[2], (31072 + 65536, 32768));
    assert_eq!(ops[3], (31072 + 98304, 100000 - 98304));
}

#[test]
fn zero_fill_is_empty_when_the_copy_filled_the_partition() {
    let ops = zero_fill_remainder_ops(4096, 65536, 65536);
    assert!(ops.is_empty());
}

#[test]
fn zero_fill_chunks_are_contiguous() {
    let ops = zero_fill_ops(1000, 70000);
    assert_eq!(ops.len(), 3);
    assert_eq!(ops[0], (1000, 32768));
    assert_eq!(ops[1], (33768, 32768));
    assert_eq!(ops[2], (66536, 70000 - 65536));
    let total: u64 = ops.iter().map(|op| op.1).sum();
    assert_eq!(total, 70000);
}
