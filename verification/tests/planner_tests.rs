use diskflash::parts::{partition_name_to_flags, partition_name_to_type, FlashError,
    PartitionDefinition, PartitionType};
use diskflash::planner::{parse_empty_partition, parse_format_partition, parse_format_partitions,
    parse_partition, parse_partitions, parse_size_argument, reorder_partitions};
use diskflash::text::split_name_value;

#[test]
fn split_at_first_colon() {
    assert_eq!(
        split_name_value("boot:./boot.img"),
        Some(("boot".to_string(), "./boot.img".to_string()))
    );
    assert_eq!(split_name_value("a:b:c"), Some(("a".to_string(), "b:c".to_string())));
    assert_eq!(split_name_value(":x"), Some(("".to_string(), "x".to_string())));
    assert_eq!(split_name_value("nocolon"), None);
    assert_eq!(split_name_value(""), None);
}

#[test]
fn classification_table_is_exact() {
    let cases: &[(&str, PartitionType)] = &[
        ("system", PartitionType::System),
        ("vendor", PartitionType::System),
        ("super", PartitionType::System),
        ("product", PartitionType::System),
        ("odm", PartitionType::System),
        ("cache", PartitionType::Cache),
        ("userdata", PartitionType::Data),
        ("boot", PartitionType::Boot),
        ("vendor_boot", PartitionType::Boot),
        ("system_dlkm", PartitionType::Boot),
        ("vendor_dlkm", PartitionType::Boot),
        ("dtb", PartitionType::Boot),
        ("dtbo", PartitionType::Boot),
        ("vbmeta", PartitionType::Boot),
        ("security", PartitionType::Boot),
        ("recovery", PartitionType::Recovery),
        ("misc", PartitionType::Misc),
        ("metadata", PartitionType::Metadata),
        ("factory", PartitionType::Factory),
        ("backup", PartitionType::Factory),
        ("uboot", PartitionType::Bootloader),
        ("bootloader", PartitionType::Bootloader),
        ("loader", PartitionType::Bootloader),
        ("trust", PartitionType::Bootloader),
        ("idbloader", PartitionType::Bootloader),
        ("stage2", PartitionType::Bootloader2),
        ("bootloader2", PartitionType::Bootloader2),
        ("loader2", PartitionType::Bootloader2),
        ("fastboot", PartitionType::Fastboot),
        ("oem", PartitionType::Oem),
        ("persist", PartitionType::Persistent),
        ("unknown", PartitionType::Basic),
        ("Boot", PartitionType::Basic),
        ("", PartitionType::Basic),
    ];
    for (name, expected) in cases {
        assert_eq!(partition_name_to_type(name), *expected, "name {}", name);
    }
}

#[test]
fn no_name_sets_flags() {
    assert_eq!(partition_name_to_flags("boot"), 0);
    assert_eq!(partition_name_to_flags("anything"), 0);
}

#[test]
fn file_backed_request_rounds_to_first_partition_alignment() {
    let def = parse_partition("boot".to_string(), "./boot.img".to_string(), 4 * 1024 * 1024)
        .unwrap();
    assert_eq!(def.partition_name, "boot");
    assert_eq!(def.source_file, Some("./boot.img".to_string()));
    assert_eq!(def.size, 8 * 1024 * 1024);

    let tiny = parse_partition("dtb".to_string(), "./dtb.img".to_string(), 1).unwrap();
    assert_eq!(tiny.size, 8 * 1024 * 1024);
}

#[test]
fn file_backed_request_near_ceiling_is_rejected() {
    let r = parse_partition("boot".to_string(), "./boot.img".to_string(), u64::MAX - 7);
    assert_eq!(
        r,
        Err(FlashError::SizeOverflow { value: u64::MAX - 7, align: 8 * 1024 * 1024 })
    );
}

#[test]
fn blank_request_takes_literal_size_unaligned() {
    let def = parse_empty_partition(&"misc:1MiB".to_string()).unwrap();
    assert_eq!(def.partition_name, "misc");
    assert_eq!(def.source_file, None);
    assert_eq!(def.size, 1024 * 1024);

    let def = parse_empty_partition(&"metadata:20000".to_string()).unwrap();
    assert_eq!(def.size, 20000);

    let def = parse_empty_partition(&"cache:10 KB".to_string()).unwrap();
    assert_eq!(def.size, 10000);
}

#[test]
fn malformed_blank_requests_are_argument_errors() {
    assert_eq!(
        parse_empty_partition(&"misc".to_string()),
        Err(FlashError::Argument { arg: "misc".to_string() })
    );
    assert_eq!(
        parse_empty_partition(&"misc:^_^".to_string()),
        Err(FlashError::Argument { arg: "misc:^_^".to_string() })
    );
}

#[test]
fn format_requests_split_into_name_and_kind() {
    let d = parse_format_partition(&"userdata:ext4".to_string()).unwrap();
    assert_eq!(d.partition_name, "userdata");
    assert_eq!(d.format_as, "ext4");
    assert_eq!(
        parse_format_partition(&"userdata".to_string()),
        Err(FlashError::Argument { arg: "userdata".to_string() })
    );
}

#[test]
fn format_requests_parse_in_order_and_stop_at_the_first_bad_one() {
    let reqs = vec!["userdata:ext4".to_string(), "cache:vfat".to_string()];
    let defs = parse_format_partitions(&reqs).unwrap();
    assert_eq!(defs.len(), 2);
    assert_eq!(defs[0].partition_name, "userdata");
    assert_eq!(defs[0].format_as, "ext4");
    assert_eq!(defs[1].partition_name, "cache");
    assert_eq!(defs[1].format_as, "vfat");

    let reqs = vec!["userdata:ext4".to_string(), "cache".to_string()];
    assert_eq!(
        parse_format_partitions(&reqs),
        Err(FlashError::Argument { arg: "cache".to_string() })
    );
}

#[test]
fn near_ceiling_size_literals_are_rejected_not_parsed() {
    // Twenty or more digits lie at or beyond the numeric ceiling; such
    // literals are rejected before the parser sees them, including the forms
    // whose twentieth significant digit would round a full mantissa up.
    assert_eq!(
        parse_size_argument(&"184467440737095516155".to_string()),
        Err(FlashError::Argument { arg: "184467440737095516155".to_string() })
    );
    assert_eq!(
        parse_size_argument(&"18446744073709551615.5".to_string()),
        Err(FlashError::Argument { arg: "18446744073709551615.5".to_string() })
    );
    assert_eq!(
        parse_empty_partition(&"misc:18446744073709551615".to_string()),
        Err(FlashError::Argument { arg: "misc:18446744073709551615".to_string() })
    );
    // Nineteen digits still parse.
    assert_eq!(
        parse_size_argument(&"9999999999999999999".to_string()),
        Ok(9_999_999_999_999_999_999)
    );
}

#[test]
fn size_argument_parses_like_a_blank_partition_size() {
    assert_eq!(parse_size_argument(&"0".to_string()), Ok(0));
    assert_eq!(parse_size_argument(&"16GiB".to_string()), Ok(16 * 1024 * 1024 * 1024));
    assert_eq!(
        parse_size_argument(&"many".to_string()),
        Err(FlashError::Argument { arg: "many".to_string() })
    );
}

#[test]
fn combined_plan_keeps_file_backed_before_blank() {
    let files = vec![("boot".to_string(), "./boot.img".to_string(), 1000u64)];
    let blanks = vec!["misc:1MiB".to_string(), "cache:2MiB".to_string()];
    let defs = parse_partitions(&files, &blanks).unwrap();
    assert_eq!(defs.len(), 3);
    assert_eq!(defs[0].partition_name, "boot");
    assert_eq!(defs[0].size, 8 * 1024 * 1024);
    assert_eq!(defs[1].partition_name, "misc");
    assert_eq!(defs[1].size, 1024 * 1024);
    assert_eq!(defs[2].partition_name, "cache");
    assert_eq!(defs[2].size, 2 * 1024 * 1024);
}

#[test]
fn combined_plan_fails_on_bad_blank() {
    let files: Vec<(String, String, u64)> = vec![];
    let blanks = vec!["bad".to_string()];
    assert_eq!(
        parse_partitions(&files, &blanks),
        Err(FlashError::Argument { arg: "bad".to_string() })
    );
}

fn blank(name: &str, size: u64) -> PartitionDefinition {
    PartitionDefinition { partition_name: name.to_string(), source_file: None, size }
}

#[test]
fn bootloader_entries_come_first_keeping_relative_order() {
    let defs = vec![
        blank("misc", 1),
        blank("uboot", 2),
        blank("boot", 3),
        blank("trust", 4),
        blank("userdata", 5),
    ];
    let ordered = reorder_partitions(defs);
    let names: Vec<&str> = ordered.iter().map(|d| d.partition_name.as_str()).collect();
    assert_eq!(names, vec!["uboot", "trust", "misc", "boot", "userdata"]);
}

#[test]
fn reorder_without_bootloader_entries_keeps_order() {
    let defs = vec![blank("boot", 1), blank("misc", 2)];
    let ordered = reorder_partitions(defs);
    let names: Vec<&str> = ordered.iter().map(|d| d.partition_name.as_str()).collect();
    assert_eq!(names, vec!["boot", "misc"]);
}
