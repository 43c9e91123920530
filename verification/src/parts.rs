//! Partition requests, classification of partition names, created-partition
//! records, and the error taxonomy of the pipeline.

use vstd::prelude::*;
use crate::text::str_eq;

verus! {

/// Classification of a partition derived from its name. It drives both the
/// commit order (bootloader partitions come first) and the on-disk type GUID.
#[derive(Clone, Copy, Debug, PartialEq, Eq, Structural)]
pub enum PartitionType {
    System,
    Cache,
    Data,
    Boot,
    Recovery,
    Misc,
    Metadata,
    Factory,
    Bootloader,
    Bootloader2,
    Fastboot,
    Oem,
    Persistent,
    Basic,
}

/// The static name-to-type lookup table, by exact, case-sensitive match.
pub open spec fn type_of_name(s: Seq<char>) -> PartitionType {
    if s == "system"@ || s == "vendor"@ || s == "super"@ || s == "product"@ || s == "odm"@ {
        PartitionType::System
    } else if s == "cache"@ {
        PartitionType::Cache
    } else if s == "userdata"@ {
        PartitionType::Data
    } else if s == "boot"@ || s == "vendor_boot"@ || s == "system_dlkm"@ || s == "vendor_dlkm"@
        || s == "dtb"@ || s == "dtbo"@ || s == "vbmeta"@ || s == "security"@ {
        PartitionType::Boot
    } else if s == "recovery"@ {
        PartitionType::Recovery
    } else if s == "misc"@ {
        PartitionType::Misc
    } else if s == "metadata"@ {
        PartitionType::Metadata
    } else if s == "factory"@ || s == "backup"@ {
        PartitionType::Factory
    } else if s == "uboot"@ || s == "bootloader"@ || s == "loader"@ || s == "trust"@
        || s == "idbloader"@ {
        PartitionType::Bootloader
    } else if s == "stage2"@ || s == "bootloader2"@ || s == "loader2"@ {
        PartitionType::Bootloader2
    } else if s == "fastboot"@ {
        PartitionType::Fastboot
    } else if s == "oem"@ {
        PartitionType::Oem
    } else if s == "persist"@ {
        PartitionType::Persistent
    } else {
        PartitionType::Basic
    }
}

/// Classifies a partition name by the static lookup table.
pub fn partition_name_to_type(name: &str) -> (t: PartitionType)
    ensures
        t == type_of_name(name@),
{
    if str_eq(name, "system") || str_eq(name, "vendor") || str_eq(name, "super")
        || str_eq(name, "product") || str_eq(name, "odm") {
        PartitionType::System
    } else if str_eq(name, "cache") {
        PartitionType::Cache
    } else if str_eq(name, "userdata") {
        PartitionType::Data
    } else if str_eq(name, "boot") || str_eq(name, "vendor_boot") || str_eq(name, "system_dlkm")
        || str_eq(name, "vendor_dlkm") || str_eq(name, "dtb") || str_eq(name, "dtbo")
        || str_eq(name, "vbmeta") || str_eq(name, "security") {
        PartitionType::Boot
    } else if str_eq(name, "recovery") {
        PartitionType::Recovery
    } else if str_eq(name, "misc") {
        PartitionType::Misc
    } else if str_eq(name, "metadata") {
        PartitionType::Metadata
    } else if str_eq(name, "factory") || str_eq(name, "backup") {
        PartitionType::Factory
    } else if str_eq(name, "uboot") || str_eq(name, "bootloader") || str_eq(name, "loader")
        || str_eq(name, "trust") || str_eq(name, "idbloader") {
        PartitionType::Bootloader
    } else if str_eq(name, "stage2") || str_eq(name, "bootloader2") || str_eq(name, "loader2") {
        PartitionType::Bootloader2
    } else if str_eq(name, "fastboot") {
        PartitionType::Fastboot
    } else if str_eq(name, "oem") {
        PartitionType::Oem
    } else if str_eq(name, "persist") {
        PartitionType::Persistent
    } else {
        PartitionType::Basic
    }
}

/// Attribute flags for a partition name: no name sets any flag.
pub fn partition_name_to_flags(name: &str) -> (f: u64)
    ensures
        f == 0,
{
    let _ = name;
    0
}

/// A user-supplied partition request: either backed by a source file (size
/// derived from the file's length) or blank (size given literally).
#[derive(Debug, PartialEq, Eq)]
pub struct PartitionDefinition {
    /// Partition name; the only identity, and the key of the classification.
    pub partition_name: String,
    /// Path of the source content, when the partition is file-backed.
    pub source_file: Option<String>,
    /// Planned size in bytes.
    pub size: u64,
}

/// A request to create a filesystem on a named partition.
#[derive(Debug, PartialEq, Eq)]
pub struct FormatPartitionDefinition {
    /// Name of the partition to format.
    pub partition_name: String,
    /// Filesystem kind handed to the external creation tool.
    pub format_as: String,
}

/// The extent a committed partition received in the table, as plain values.
#[derive(Debug, PartialEq, Eq)]
pub struct PartitionExtent {
    /// Name recorded in the table entry.
    pub name: String,
    /// First logical block of the extent.
    pub first_lba: u64,
    /// Last logical block of the extent, inclusive.
    pub last_lba: u64,
    /// The partition's unique identifier, lowercase hyphenated.
    pub part_uuid: String,
}

/// The result of committing one plan entry to the table. `def` is `None` for
/// the implicitly created trailing partition.
#[derive(Debug, PartialEq, Eq)]
pub struct CreatedPartition {
    /// The plan entry this partition came from, if any.
    pub def: Option<PartitionDefinition>,
    /// The extent the entry received.
    pub partition: PartitionExtent,
    /// The classification the entry was committed under, which chose its
    /// on-disk type GUID.
    pub part_type: PartitionType,
}

impl Clone for PartitionDefinition {
    /// A clone keeps every field.
    fn clone(&self) -> (r: Self)
        ensures
            r == *self,
    {
        PartitionDefinition {
            partition_name: self.partition_name.clone(),
            source_file: match &self.source_file {
                Some(s) => Some(s.clone()),
                None => None,
            },
            size: self.size,
        }
    }
}

impl Clone for FormatPartitionDefinition {
    /// A clone keeps every field.
    fn clone(&self) -> (r: Self)
        ensures
            r == *self,
    {
        FormatPartitionDefinition {
            partition_name: self.partition_name.clone(),
            format_as: self.format_as.clone(),
        }
    }
}

impl Clone for PartitionExtent {
    /// A clone keeps every field.
    fn clone(&self) -> (r: Self)
        ensures
            r == *self,
    {
        PartitionExtent {
            name: self.name.clone(),
            first_lba: self.first_lba,
            last_lba: self.last_lba,
            part_uuid: self.part_uuid.clone(),
        }
    }
}

impl Clone for CreatedPartition {
    /// A clone keeps every field.
    fn clone(&self) -> (r: Self)
        ensures
            r == *self,
    {
        CreatedPartition {
            def: match &self.def {
                Some(d) => Some(d.clone()),
                None => None,
            },
            partition: self.partition.clone(),
            part_type: self.part_type,
        }
    }
}

/// Everything that can stop the pipeline. Each variant carries the partition,
/// path or value it is about, so a message can name it.
#[derive(Debug, PartialEq, Eq)]
pub enum FlashError {
    /// A malformed request string or unparseable size literal.
    Argument { arg: String },
    /// A missing or inaccessible input file.
    SourceUnavailable { path: String, detail: String },
    /// Alignment arithmetic too close to the numeric ceiling.
    SizeOverflow { value: u64, align: u64 },
    /// A partition-add or table operation rejected by the table builder.
    TableConstruction { name: String, size: u64, detail: String },
    /// An open, seek, read or write failure on the destination or a source.
    Io { path: String, detail: String },
    /// A format request names a partition that the table does not hold.
    PartitionNotFound { name: String, format_as: String },
    /// A device node never appeared within the retry budget.
    DeviceTimeout { device: String, retries: u32 },
    /// A non-zero exit from an external tool.
    ExternalTool { tool: String, detail: String },
}

} // verus!
