//! Turning user-supplied partition requests into an ordered, sized plan.
//!
//! File-backed requests take the size of their source content rounded up to
//! the first-partition alignment unit, whatever position the entry ends up
//! in; blank requests take the literal parsed size, unaligned at plan time.
//! The combined list (file-backed requests first, then blank requests, each
//! group in input order) is then reordered so that every bootloader-typed
//! entry precedes everything else, each group keeping its relative order.

use vstd::prelude::*;
use crate::alignment::{align_up, spec_align_up};
use crate::parts::{FlashError, FormatPartitionDefinition, PartitionDefinition, PartitionType,
    partition_name_to_type, type_of_name};
use crate::text::{colon_index, split_name_value};
use crate::FIRST_PART_ALIGNMENT;

verus! {

/// The number of bytes that a size literal such as `1MiB` denotes, or `None`
/// where the literal does not parse.
pub uninterp spec fn parsed_size(s: Seq<char>) -> Option<u64>;

/// Count of decimal digit characters in `s`.
pub open spec fn digit_count(s: Seq<char>) -> int
    decreases s.len(),
{
    if s.len() == 0 {
        0
    } else {
        digit_count(s.drop_last()) + (if '0' as u32 <= s.last() as u32 && s.last() as u32
            <= '9' as u32 {
            1int
        } else {
            0int
        })
    }
}

/// Counts the decimal digit characters of `s`.
fn count_digits(s: &str) -> (n: usize)
    ensures
        n == digit_count(s@),
{
    let len = s.unicode_len();
    let mut n: usize = 0;
    let mut i: usize = 0;
    while i < len
        invariant
            len == s@.len(),
            i <= len,
            n <= i,
            n == digit_count(s@.subrange(0, i as int)),
        decreases len - i,
    {
        proof {
            let pre = s@.subrange(0, i as int);
            let post = s@.subrange(0, i + 1);
            assert(post.drop_last() =~= pre);
            assert(post.last() == s@[i as int]);
        }
        let c = s.get_char(i);
        if c as u32 >= '0' as u32 && c as u32 <= '9' as u32 {
            n += 1;
        }
        i += 1;
    }
    proof {
        assert(s@.subrange(0, len as int) =~= s@);
    }
    n
}

/// Relies on parse_size::parse_size: turns a size literal (decimal or binary
/// suffixes, plain digits) into a byte count; the result depends on the
/// characters alone. The digit bound keeps the parser away from its
/// rounding-on-overflow path, whose unchecked increment does not return on a
/// twentieth significant digit that rounds a full mantissa up.
#[verifier::external_body]
pub(crate) fn parse_size_literal(s: &str) -> (r: Result<u64, String>)
    requires
        digit_count(s@) < 20,
    ensures
        match r {
            Ok(v) => parsed_size(s@) == Some(v),
            Err(_) => parsed_size(s@) is None,
        },
{
    parse_size::parse_size(s).map_err(|e| e.to_string())
}

/// Parses the caller-supplied size argument for the destination image. A
/// literal of twenty or more digits is rejected outright: it lies at or
/// beyond the numeric ceiling.
pub fn parse_size_argument(arg: &String) -> (r: Result<u64, FlashError>)
    ensures
        r is Ok <==> digit_count(arg@) < 20 && parsed_size(arg@) is Some,
        match r {
            Ok(v) => parsed_size(arg@) == Some(v),
            Err(e) => e == (FlashError::Argument { arg: *arg }),
        },
{
    if count_digits(arg.as_str()) >= 20 {
        return Err(FlashError::Argument { arg: arg.clone() });
    }
    match parse_size_literal(arg.as_str()) {
        Ok(v) => Ok(v),
        Err(_) => Err(FlashError::Argument { arg: arg.clone() }),
    }
}

/// What a blank-partition request string denotes: the name before the first
/// colon and the byte count its size literal parses to.
pub open spec fn spec_blank_partition(s: Seq<char>) -> Option<(Seq<char>, u64)> {
    match colon_index(s) {
        None => None,
        Some(i) => if digit_count(s.subrange(i + 1, s.len() as int)) >= 20 {
            None
        } else {
            match parsed_size(s.subrange(i + 1, s.len() as int)) {
                None => None,
                Some(v) => Some((s.subrange(0, i), v)),
            }
        },
    }
}

/// A source length this far below the numeric ceiling can be rounded up to
/// the first-partition alignment without wrapping.
pub open spec fn file_len_fits(len: u64) -> bool {
    len <= u64::MAX - FIRST_PART_ALIGNMENT
}

/// Plans one file-backed partition request: the planned size is the source
/// content's length rounded up to the first-partition alignment unit,
/// whatever position the entry will take.
pub fn parse_partition(name: String, source_file: String, source_len: u64) -> (r: Result<
    PartitionDefinition,
    FlashError,
>)
    ensures
        r is Ok <==> file_len_fits(source_len),
        match r {
            Ok(def) => def.partition_name == name && def.source_file == Some(source_file)
                && def.size == spec_align_up(source_len, FIRST_PART_ALIGNMENT),
            Err(e) => e == (FlashError::SizeOverflow {
                value: source_len,
                align: FIRST_PART_ALIGNMENT,
            }),
        },
{
    if source_len > u64::MAX - FIRST_PART_ALIGNMENT {
        return Err(FlashError::SizeOverflow { value: source_len, align: FIRST_PART_ALIGNMENT });
    }
    let size = align_up(source_len, FIRST_PART_ALIGNMENT);
    Ok(PartitionDefinition { partition_name: name, source_file: Some(source_file), size })
}

/// Plans one blank partition request of the form `name:size`. A size literal
/// of twenty or more digits is rejected outright: it lies at or beyond the
/// numeric ceiling.
pub fn parse_empty_partition(part_arg: &String) -> (r: Result<PartitionDefinition, FlashError>)
    ensures
        r is Ok <==> spec_blank_partition(part_arg@) is Some,
        match r {
            Ok(def) => spec_blank_partition(part_arg@) == Some(
                (def.partition_name@, def.size),
            ) && def.source_file is None,
            Err(e) => e == (FlashError::Argument { arg: *part_arg }),
        },
{
    match split_name_value(part_arg.as_str()) {
        None => Err(FlashError::Argument { arg: part_arg.clone() }),
        Some((name, value)) => {
            if count_digits(value.as_str()) >= 20 {
                return Err(FlashError::Argument { arg: part_arg.clone() });
            }
            match parse_size_literal(value.as_str()) {
                Err(_) => Err(FlashError::Argument { arg: part_arg.clone() }),
                Ok(size) => Ok(
                    PartitionDefinition { partition_name: name, source_file: None, size },
                ),
            }
        },
    }
}

/// Parses one format request of the form `name:filesystem-kind`.
pub fn parse_format_partition(part_arg: &String) -> (r: Result<
    FormatPartitionDefinition,
    FlashError,
>)
    ensures
        r is Ok <==> colon_index(part_arg@) is Some,
        match r {
            Ok(d) => colon_index(part_arg@) matches Some(i) && d.partition_name@
                == part_arg@.subrange(0, i) && d.format_as@ == part_arg@.subrange(
                i + 1,
                part_arg@.len() as int,
            ),
            Err(e) => e == (FlashError::Argument { arg: *part_arg }),
        },
{
    match split_name_value(part_arg.as_str()) {
        None => Err(FlashError::Argument { arg: part_arg.clone() }),
        Some((partition_name, format_as)) => Ok(
            FormatPartitionDefinition { partition_name, format_as },
        ),
    }
}

/// The parsed request `d` is what the format request string `arg` denotes.
pub open spec fn format_def_matches(arg: String, d: FormatPartitionDefinition) -> bool {
    colon_index(arg@) matches Some(i) && d.partition_name@ == arg@.subrange(0, i)
        && d.format_as@ == arg@.subrange(i + 1, arg@.len() as int)
}

/// Every format request string holds a separator.
pub open spec fn all_format_args_split(s: Seq<String>) -> bool {
    forall|j: int| 0 <= j < s.len() ==> (#[trigger] colon_index(s[j]@)) is Some
}

/// Parses every format request, in order; the first malformed one stops the
/// run with an error naming it.
pub fn parse_format_partitions(args: &Vec<String>) -> (r: Result<
    Vec<FormatPartitionDefinition>,
    FlashError,
>)
    ensures
        r is Ok <==> all_format_args_split(args@),
        match r {
            Ok(defs) => defs@.len() == args@.len() && (forall|j: int|
                0 <= j < args@.len() ==> format_def_matches(args@[j], #[trigger] defs@[j])),
            Err(e) => exists|j: int|
                0 <= j < args@.len() && (#[trigger] colon_index(args@[j]@)) is None && (forall|
                    m: int,
                |
                    0 <= m < j ==> (#[trigger] colon_index(args@[m]@)) is Some) && e == (
                FlashError::Argument { arg: args@[j] }),
        },
{
    let mut defs: Vec<FormatPartitionDefinition> = Vec::new();
    let n = args.len();
    let mut j: usize = 0;
    while j < n
        invariant
            n == args@.len(),
            j <= n,
            defs@.len() == j,
            forall|k: int| 0 <= k < j ==> format_def_matches(args@[k], #[trigger] defs@[k]),
            forall|k: int| 0 <= k < j ==> (#[trigger] colon_index(args@[k]@)) is Some,
        decreases n - j,
    {
        match parse_format_partition(&args[j]) {
            Ok(d) => defs.push(d),
            Err(e) => {
                return Err(e);
            },
        }
        j += 1;
    }
    Ok(defs)
}

/// The planned definition `d` is what the file-backed request `t`
/// (name, source path, source length) must come out as.
pub open spec fn file_def_matches(t: (String, String, u64), d: PartitionDefinition) -> bool {
    &&& d.partition_name == t.0
    &&& d.source_file == Some(t.1)
    &&& d.size == spec_align_up(t.2, FIRST_PART_ALIGNMENT)
}

/// The planned definition `d` is what the blank request string `arg` denotes.
pub open spec fn blank_def_matches(arg: String, d: PartitionDefinition) -> bool {
    &&& spec_blank_partition(arg@) == Some((d.partition_name@, d.size))
    &&& d.source_file is None
}

/// Every file-backed request's source length is safely below the ceiling.
pub open spec fn all_file_lens_fit(s: Seq<(String, String, u64)>) -> bool {
    forall|i: int| 0 <= i < s.len() ==> file_len_fits(#[trigger] s[i].2)
}

/// Every blank request string parses.
pub open spec fn all_blanks_parse(s: Seq<String>) -> bool {
    forall|j: int| 0 <= j < s.len() ==> (#[trigger] spec_blank_partition(s[j]@)) is Some
}

/// Builds the combined plan: the file-backed requests (each as name, source
/// path and source length) in order, followed by the blank requests in order.
pub fn parse_partitions(
    file_parts: &Vec<(String, String, u64)>,
    blank_args: &Vec<String>,
) -> (r: Result<Vec<PartitionDefinition>, FlashError>)
    ensures
        r is Ok <==> all_file_lens_fit(file_parts@) && all_blanks_parse(blank_args@),
        match r {
            Ok(defs) => {
                &&& defs@.len() == file_parts@.len() + blank_args@.len()
                &&& forall|i: int|
                    0 <= i < file_parts@.len() ==> file_def_matches(
                        file_parts@[i],
                        #[trigger] defs@[i],
                    )
                &&& forall|j: int|
                    0 <= j < blank_args@.len() ==> blank_def_matches(
                        blank_args@[j],
                        #[trigger] defs@[file_parts@.len() + j],
                    )
            },
            Err(e) => (exists|i: int|
                0 <= i < file_parts@.len() && !file_len_fits((#[trigger] file_parts@[i]).2) && (
                forall|m: int| 0 <= m < i ==> file_len_fits((#[trigger] file_parts@[m]).2)) && e
                    == (FlashError::SizeOverflow {
                    value: file_parts@[i].2,
                    align: FIRST_PART_ALIGNMENT,
                })) || (all_file_lens_fit(file_parts@) && (exists|j: int|
                0 <= j < blank_args@.len() && (#[trigger] spec_blank_partition(
                    blank_args@[j]@,
                )) is None && (forall|m: int|
                    0 <= m < j ==> (#[trigger] spec_blank_partition(blank_args@[m]@)) is Some)
                    && e == (FlashError::Argument { arg: blank_args@[j] }))),
        },
{
    let mut defs: Vec<PartitionDefinition> = Vec::new();
    let nf = file_parts.len();
    let mut i: usize = 0;
    while i < nf
        invariant
            nf == file_parts@.len(),
            i <= nf,
            defs@.len() == i,
            forall|k: int|
                0 <= k < i ==> file_def_matches(file_parts@[k], #[trigger] defs@[k]),
            forall|k: int| 0 <= k < i ==> file_len_fits(#[trigger] file_parts@[k].2),
        decreases nf - i,
    {
        let t = &file_parts[i];
        match parse_partition(t.0.clone(), t.1.clone(), t.2) {
            Ok(def) => defs.push(def),
            Err(e) => {
                return Err(e);
            },
        }
        i += 1;
    }
    let nb = blank_args.len();
    let mut j: usize = 0;
    while j < nb
        invariant
            nf == file_parts@.len(),
            nb == blank_args@.len(),
            j <= nb,
            defs@.len() == nf + j,
            all_file_lens_fit(file_parts@),
            forall|k: int|
                0 <= k < nf ==> file_def_matches(file_parts@[k], #[trigger] defs@[k]),
            forall|k: int|
                0 <= k < j ==> blank_def_matches(blank_args@[k], #[trigger] defs@[nf + k]),
            forall|k: int| 0 <= k < j ==> (#[trigger] spec_blank_partition(blank_args@[k]@)) is Some,
        decreases nb - j,
    {
        match parse_empty_partition(&blank_args[j]) {
            Ok(def) => defs.push(def),
            Err(e) => {
                return Err(e);
            },
        }
        j += 1;
    }
    Ok(defs)
}

/// The entry classifies as a bootloader partition.
pub open spec fn is_bootloader_def(d: PartitionDefinition) -> bool {
    type_of_name(d.partition_name@) == PartitionType::Bootloader
}

/// The bootloader-typed entries of `s`, in their relative order.
pub open spec fn bootloader_defs(s: Seq<PartitionDefinition>) -> Seq<PartitionDefinition> {
    s.filter(|d: PartitionDefinition| is_bootloader_def(d))
}

/// The entries of `s` that are not bootloader-typed, in their relative order.
pub open spec fn non_bootloader_defs(s: Seq<PartitionDefinition>) -> Seq<PartitionDefinition> {
    s.filter(|d: PartitionDefinition| !is_bootloader_def(d))
}

/// The committed order: bootloader-typed entries first, then everything
/// else, each group keeping its relative order from `s`.
pub open spec fn bootloader_first(s: Seq<PartitionDefinition>) -> Seq<PartitionDefinition> {
    bootloader_defs(s) + non_bootloader_defs(s)
}

/// Reorders the plan so that every bootloader-typed entry precedes every
/// other entry, both groups keeping their input order.
pub fn reorder_partitions(partitions: Vec<PartitionDefinition>) -> (r: Vec<PartitionDefinition>)
    ensures
        r@ == bootloader_first(partitions@),
{
    let mut boot: Vec<PartitionDefinition> = Vec::new();
    let mut rest: Vec<PartitionDefinition> = Vec::new();
    let n = partitions.len();
    let mut i: usize = 0;
    while i < n
        invariant
            n == partitions@.len(),
            i <= n,
            boot@ == bootloader_defs(partitions@.subrange(0, i as int)),
            rest@ == non_bootloader_defs(partitions@.subrange(0, i as int)),
        decreases n - i,
    {
        let d = partitions[i].clone();
        proof {
            reveal(Seq::filter);
            let pre = partitions@.subrange(0, i as int);
            let post = partitions@.subrange(0, i + 1);
            assert(post.drop_last() =~= pre);
            assert(post.last() == partitions@[i as int]);
        }
        if partition_name_to_type(d.partition_name.as_str()) == PartitionType::Bootloader {
            boot.push(d);
        } else {
            rest.push(d);
        }
        i += 1;
    }
    proof {
        assert(partitions@.subrange(0, n as int) =~= partitions@);
    }
    let mut r = boot;
    let mut tail = rest;
    r.append(&mut tail);
    r
}

/// Law: in the committed order, a bootloader-typed entry never stands behind
/// an entry of any other type — every bootloader entry precedes every
/// non-bootloader entry.
pub proof fn lemma_bootloader_partitions_precede(s: Seq<PartitionDefinition>, i: int, j: int)
    requires
        0 <= i < j < bootloader_first(s).len(),
        is_bootloader_def(bootloader_first(s)[j]),
    ensures
        is_bootloader_def(bootloader_first(s)[i]),
{
    broadcast use vstd::seq_lib::group_filter_ensures;

    let bl = bootloader_defs(s);
    let nb = non_bootloader_defs(s);
    if j >= bl.len() {
        assert(bootloader_first(s)[j] == nb[j - bl.len()]);
        assert(false);
    }
    assert(bootloader_first(s)[i] == bl[i]);
}

} // verus!
