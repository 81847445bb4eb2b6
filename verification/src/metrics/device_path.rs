//! Finding the directory under which the kernel shows a device.

use crate::error::AppError;
use crate::text::{chars_of, contains, has, texts};
use vstd::prelude::*;

verus! {

/// The directory whose entries are searched for a device that stands at
/// none of the known places.
pub const DEVFREQ_DIR: &'static str = "/sys/class/devfreq";

/// One entry of the searched directory.
#[derive(Debug, Clone)]
pub struct DirEntryInfo {
    /// The entry's own name.
    pub name: String,
    /// The entry's full path.
    pub path: String,
    /// Whether the entry is a directory.
    pub is_dir: bool,
}

/// What was found on disk for one family of devices.
#[derive(Debug, Clone)]
pub struct DeviceProbe {
    /// For each known place, in order, whether it exists.
    pub present: Vec<bool>,
    /// The entries of the searched directory, in the order they were
    /// listed.
    pub entries: Vec<DirEntryInfo>,
}

/// Whether the known place `i` exists. A place that was not looked at
/// counts as missing.
pub open spec fn is_present(present: Seq<bool>, i: int) -> bool {
    0 <= i < present.len() && present[i]
}

/// The first of the `count` known places from `i` on that exists.
pub open spec fn first_present(present: Seq<bool>, count: nat, i: int) -> Option<int>
    decreases count - i,
{
    if i < 0 || i >= count {
        None
    } else if is_present(present, i) {
        Some(i)
    } else {
        first_present(present, count, i + 1)
    }
}

/// Whether one of `keywords` occurs in `name`, letter case kept.
pub open spec fn names_family(name: Seq<char>, keywords: Seq<Seq<char>>) -> bool {
    exists|k: int| 0 <= k < keywords.len() && contains(name, #[trigger] keywords[k])
}

/// Whether `entry` is a directory whose name holds one of `keywords`.
pub open spec fn entry_matches(entry: DirEntryInfo, keywords: Seq<Seq<char>>) -> bool {
    entry.is_dir && names_family(entry.name@, keywords)
}

/// The first entry from `i` on that is a directory whose name holds one
/// of `keywords`.
pub open spec fn first_matching(entries: Seq<DirEntryInfo>, keywords: Seq<Seq<char>>, i: int)
    -> Option<int>
    decreases entries.len() - i,
{
    if i < 0 || i >= entries.len() {
        None
    } else if entry_matches(entries[i], keywords) {
        Some(i)
    } else {
        first_matching(entries, keywords, i + 1)
    }
}

/// Where the device stands: the first known place that exists, else the
/// first entry of the searched directory that matches, else nowhere.
pub open spec fn resolved_path(
    candidates: Seq<Seq<char>>,
    keywords: Seq<Seq<char>>,
    probe: DeviceProbe,
) -> Option<Seq<char>> {
    match first_present(probe.present@, candidates.len(), 0) {
        Some(i) => Some(candidates[i]),
        None => match first_matching(probe.entries@, keywords, 0) {
            Some(j) => Some(probe.entries@[j].path@),
            None => None,
        },
    }
}

/// What the search among the known places finds is the first one from
/// `i` on that exists.
pub proof fn lemma_first_present(present: Seq<bool>, count: nat, i: int)
    requires
        0 <= i,
    ensures
        match first_present(present, count, i) {
            Some(k) => i <= k < count && is_present(present, k) && forall|j: int|
                i <= j < k ==> !is_present(present, j),
            None => forall|j: int| i <= j < count ==> !is_present(present, j),
        },
    decreases count - i,
{
    if i < count && !is_present(present, i) {
        lemma_first_present(present, count, i + 1);
    }
}

/// What the search among the entries finds is the first one from `i` on
/// that matches.
pub proof fn lemma_first_matching(entries: Seq<DirEntryInfo>, keywords: Seq<Seq<char>>, i: int)
    requires
        0 <= i,
    ensures
        match first_matching(entries, keywords, i) {
            Some(k) => i <= k < entries.len() && entry_matches(entries[k], keywords)
                && forall|j: int| i <= j < k ==> !entry_matches(entries[j], keywords),
            None => forall|j: int| i <= j < entries.len() ==> !entry_matches(entries[j], keywords),
        },
    decreases entries.len() - i,
{
    if i < entries.len() && !entry_matches(entries[i], keywords) {
        lemma_first_matching(entries, keywords, i + 1);
    }
}

/// Among several known places that exist, the first in the list is the
/// one returned, whatever the searched directory holds.
pub proof fn lemma_first_existing_candidate_wins(
    candidates: Seq<Seq<char>>,
    keywords: Seq<Seq<char>>,
    probe: DeviceProbe,
    i: int,
)
    requires
        0 <= i < candidates.len(),
        is_present(probe.present@, i),
        forall|j: int| 0 <= j < i ==> !is_present(probe.present@, j),
    ensures
        resolved_path(candidates, keywords, probe) == Some(candidates[i]),
{
    lemma_first_present(probe.present@, candidates.len(), 0);
}

/// Where no known place exists and no entry of the searched directory
/// matches, no device is found.
pub proof fn lemma_nothing_found(
    candidates: Seq<Seq<char>>,
    keywords: Seq<Seq<char>>,
    probe: DeviceProbe,
)
    requires
        forall|j: int| 0 <= j < candidates.len() ==> !is_present(probe.present@, j),
        forall|j: int|
            0 <= j < probe.entries@.len() ==> !entry_matches(probe.entries@[j], keywords),
    ensures
        resolved_path(candidates, keywords, probe) is None,
{
    lemma_first_present(probe.present@, candidates.len(), 0);
    lemma_first_matching(probe.entries@, keywords, 0);
}

/// Tells whether one of `keywords` occurs in `name`.
pub fn name_has_keyword(name: &str, keywords: &Vec<String>) -> (b: bool)
    ensures
        b == names_family(name@, texts(keywords@)),
{
    let text = chars_of(name);
    let mut k: usize = 0;
    while k < keywords.len()
        invariant
            k <= keywords@.len(),
            text@ == name@,
            forall|j: int| 0 <= j < k ==> !contains(name@, #[trigger] texts(keywords@)[j]),
        decreases keywords@.len() - k,
    {
        let word = chars_of(keywords[k].as_str());
        assert(texts(keywords@)[k as int] == word@);
        if has(&text, &word) {
            return true;
        }
        k += 1;
    }
    false
}

/// Looks for the device among the known places `candidates`, then among
/// the entries of the searched directory. Where it is found nowhere the
/// result is an error with the message `not_found`.
pub fn resolve_device_path(
    candidates: &Vec<String>,
    keywords: &Vec<String>,
    probe: &DeviceProbe,
    not_found: &str,
) -> (r: Result<String, AppError>)
    ensures
        match r {
            Ok(p) => resolved_path(texts(candidates@), texts(keywords@), *probe) == Some(p@),
            Err(e) => resolved_path(texts(candidates@), texts(keywords@), *probe) is None
                && e.is_system(not_found@),
        },
{
    let ghost count = texts(candidates@).len();
    let mut i: usize = 0;
    while i < candidates.len()
        invariant
            i <= candidates@.len(),
            count == candidates@.len(),
            first_present(probe.present@, count, 0) == first_present(
                probe.present@,
                count,
                i as int,
            ),
        decreases candidates@.len() - i,
    {
        if i < probe.present.len() && probe.present[i] {
            let found = candidates[i].clone();
            assert(texts(candidates@)[i as int] == found@);
            return Ok(found);
        }
        i += 1;
    }
    let mut j: usize = 0;
    while j < probe.entries.len()
        invariant
            j <= probe.entries@.len(),
            count == texts(candidates@).len(),
            first_present(probe.present@, count, 0) is None,
            first_matching(probe.entries@, texts(keywords@), 0) == first_matching(
                probe.entries@,
                texts(keywords@),
                j as int,
            ),
        decreases probe.entries@.len() - j,
    {
        if probe.entries[j].is_dir && name_has_keyword(probe.entries[j].name.as_str(), keywords) {
            return Ok(probe.entries[j].path.clone());
        }
        j += 1;
    }
    Err(AppError::system(not_found))
}

} // verus!
