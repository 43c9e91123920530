//! Resolving format requests against the written table and the bounded
//! device-readiness wait that runs before each filesystem is created.

use vstd::prelude::*;
use vstd::string::StringExecFns;
use crate::gpt_io::{gpt_list_partitions, gpt_open_readonly};
use crate::parts::{FlashError, FormatPartitionDefinition, PartitionExtent};
use crate::text::str_eq;

verus! {

/// How often the device-readiness poll retries before giving up.
pub const DEVICE_WAIT_RETRIES: u32 = 20;

/// Milliseconds between two device-readiness checks.
pub const DEVICE_WAIT_INTERVAL_MS: u64 = 250;

/// Index of the first entry of `s` whose name is `name`, if any.
pub open spec fn find_by_name(s: Seq<PartitionExtent>, name: Seq<char>) -> Option<int>
    decreases s.len(),
{
    if s.len() == 0 {
        None
    } else if s[0].name@ == name {
        Some(0int)
    } else {
        match find_by_name(s.drop_first(), name) {
            None => None,
            Some(i) => Some(i + 1),
        }
    }
}

/// `find_by_name` points at the first entry with the name: the entry there
/// carries it and none before it does; when it is `None`, no entry does.
pub proof fn lemma_find_by_name_spec(s: Seq<PartitionExtent>, name: Seq<char>)
    ensures
        match find_by_name(s, name) {
            Some(i) => 0 <= i < s.len() && s[i].name@ == name && (forall|k: int|
                0 <= k < i ==> (#[trigger] s[k]).name@ != name),
            None => forall|k: int| 0 <= k < s.len() ==> (#[trigger] s[k]).name@ != name,
        },
    decreases s.len(),
{
    if s.len() > 0 && s[0].name@ != name {
        let sub = s.drop_first();
        lemma_find_by_name_spec(sub, name);
        assert(forall|k: int| 1 <= k < s.len() ==> s[k] == sub[k - 1]);
    }
}

/// A position whose entry carries the name, with none before it, is the one
/// that `find_by_name` finds.
pub proof fn lemma_find_by_name_unique(s: Seq<PartitionExtent>, name: Seq<char>, i: int)
    requires
        0 <= i < s.len(),
        s[i].name@ == name,
        forall|k: int| 0 <= k < i ==> (#[trigger] s[k]).name@ != name,
    ensures
        find_by_name(s, name) == Some(i),
    decreases s.len(),
{
    if i > 0 {
        let sub = s.drop_first();
        assert(forall|k: int| 1 <= k < s.len() ==> s[k] == sub[k - 1]);
        lemma_find_by_name_unique(sub, name, i - 1);
    }
}

/// Finds the first table entry named `name`, by exact match.
pub fn find_partition_by_name(parts: &Vec<PartitionExtent>, name: &str) -> (r: Option<usize>)
    ensures
        match r {
            Some(u) => u < parts@.len() && find_by_name(parts@, name@) == Some(u as int),
            None => find_by_name(parts@, name@) is None,
        },
{
    let n = parts.len();
    let mut i: usize = 0;
    while i < n
        invariant
            n == parts@.len(),
            i <= n,
            forall|k: int| 0 <= k < i ==> (#[trigger] parts@[k]).name@ != name@,
        decreases n - i,
    {
        if str_eq(parts[i].name.as_str(), name) {
            proof {
                lemma_find_by_name_unique(parts@, name@, i as int);
            }
            return Some(i);
        }
        i += 1;
    }
    proof {
        lemma_find_by_name_spec(parts@, name@);
    }
    None
}

/// The stable device path for a partition identifier.
pub open spec fn spec_device_path(uuid: Seq<char>) -> Seq<char> {
    "/dev/disk/by-partuuid/"@ + uuid
}

/// Builds the stable device path for a partition identifier.
pub fn device_path_for_uuid(uuid: &str) -> (r: String)
    ensures
        r@ == spec_device_path(uuid@),
{
    let mut path = "/dev/disk/by-partuuid/".to_owned();
    path.append(uuid);
    path
}

/// Re-opens the destination's already-written table read-only and hands its
/// entries out, in ascending entry-id order (the order the listing wrapper
/// guarantees of the table it read), so that format requests can be resolved
/// against a fresh view.
pub fn read_partition_table(destination: &String) -> (r: Result<Vec<PartitionExtent>, FlashError>)
    ensures
        r matches Err(e) ==> e matches FlashError::Io { path, .. } && path@ == destination@,
{
    match gpt_open_readonly(destination.as_str()) {
        Err(detail) => Err(FlashError::Io { path: destination.clone(), detail }),
        Ok(disk) => {
            let pairs = gpt_list_partitions(&disk);
            let mut parts: Vec<PartitionExtent> = Vec::new();
            let n = pairs.len();
            let mut i: usize = 0;
            while i < n
                invariant
                    n == pairs@.len(),
                    i <= n,
                    parts@.len() == i,
                    forall|k: int| 0 <= k < i ==> #[trigger] parts@[k] == pairs@[k].1,
                decreases n - i,
            {
                parts.push(pairs[i].1.clone());
                i += 1;
            }
            Ok(parts)
        },
    }
}

/// The command `cmd` (device path, filesystem kind) is what the format
/// request `req` resolves to against the table entries `parts`.
pub open spec fn resolved_matches(
    parts: Seq<PartitionExtent>,
    req: FormatPartitionDefinition,
    cmd: (String, String),
) -> bool {
    &&& find_by_name(parts, req.partition_name@) matches Some(i) && cmd.0@ == spec_device_path(
        parts[i].part_uuid@,
    )
    &&& cmd.1 == req.format_as
}

/// Resolves each format request, in the order given, to the device path of
/// the first table entry with the requested name, paired with the filesystem
/// kind. The first request naming a partition the table does not hold stops
/// the run with an error naming it, and nothing after it is resolved.
pub fn resolve_format_requests(
    parts: &Vec<PartitionExtent>,
    reqs: &Vec<FormatPartitionDefinition>,
) -> (r: Result<Vec<(String, String)>, FlashError>)
    ensures
        r is Ok <==> (forall|k: int|
            0 <= k < reqs@.len() ==> (#[trigger] find_by_name(
                parts@,
                reqs@[k].partition_name@,
            )) is Some),
        match r {
            Ok(cmds) => cmds@.len() == reqs@.len() && (forall|k: int|
                0 <= k < reqs@.len() ==> resolved_matches(parts@, reqs@[k], #[trigger] cmds@[k])),
            Err(e) => exists|k: int|
                0 <= k < reqs@.len() && (#[trigger] find_by_name(
                    parts@,
                    reqs@[k].partition_name@,
                )) is None && e == (FlashError::PartitionNotFound {
                    name: reqs@[k].partition_name,
                    format_as: reqs@[k].format_as,
                }),
        },
{
    let mut cmds: Vec<(String, String)> = Vec::new();
    let n = reqs.len();
    let mut k: usize = 0;
    while k < n
        invariant
            n == reqs@.len(),
            k <= n,
            cmds@.len() == k,
            forall|m: int|
                0 <= m < k ==> resolved_matches(parts@, reqs@[m], #[trigger] cmds@[m]),
            forall|m: int|
                0 <= m < k ==> (#[trigger] find_by_name(parts@, reqs@[m].partition_name@)) is Some,
        decreases n - k,
    {
        let req = &reqs[k];
        match find_partition_by_name(parts, req.partition_name.as_str()) {
            None => {
                return Err(FlashError::PartitionNotFound {
                    name: req.partition_name.clone(),
                    format_as: req.format_as.clone(),
                });
            },
            Some(i) => {
                let device = device_path_for_uuid(parts[i].part_uuid.as_str());
                cmds.push((device, req.format_as.clone()));
            },
        }
        k += 1;
    }
    Ok(cmds)
}

/// What the device-readiness wait does at one check: succeed when the device
/// is present, give up when the retry budget is spent, and otherwise retry.
#[derive(Clone, Copy, Debug, PartialEq, Eq, Structural)]
pub enum WaitDecision {
    /// The device is present; formatting can proceed.
    Ready,
    /// The device is absent and retries remain: sleep one interval and check
    /// again.
    Retry,
    /// The device is absent and the retry budget is spent: a fatal timeout.
    TimedOut,
}

/// The wait's decision after `tried` failed attempts out of a budget of
/// `retries`, given whether the device is present at this check.
pub open spec fn spec_wait_decision(tried: u32, retries: u32, present: bool) -> WaitDecision {
    if present {
        WaitDecision::Ready
    } else if tried >= retries {
        WaitDecision::TimedOut
    } else {
        WaitDecision::Retry
    }
}

/// One step of the bounded device-readiness wait.
pub fn wait_step(tried: u32, retries: u32, present: bool) -> (r: WaitDecision)
    ensures
        r == spec_wait_decision(tried, retries, present),
{
    if present {
        WaitDecision::Ready
    } else if tried >= retries {
        WaitDecision::TimedOut
    } else {
        WaitDecision::Retry
    }
}

/// Law: with the device never present the wait retries exactly `retries`
/// times — one decision per failed attempt — and the decision after the
/// last retry is the timeout; with the device present it succeeds at once,
/// whatever the attempt count.
pub proof fn lemma_device_wait_budget(retries: u32)
    ensures
        forall|t: u32| t < retries ==> spec_wait_decision(t, retries, false) is Retry,
        spec_wait_decision(retries, retries, false) is TimedOut,
        forall|t: u32| spec_wait_decision(t, retries, true) is Ready,
{
}

} // verus!
