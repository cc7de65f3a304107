//! A platform rule: the name of a development platform, the build-artifact
//! folder names it produces, and the file patterns whose presence next to a
//! candidate folder confirms the identification.

use vstd::prelude::*;

use crate::filter::Filter;
use crate::text::{eq_ignore_case, lower, trim, trim_str};

verus! {

/// Describes a supported development platform.
#[derive(Debug, Clone)]
pub struct Platform {
    /// Development platform name.
    pub name: String,
    /// Expected build artifact folder names of the platform.
    pub folders: Vec<String>,
    /// Associated files and file extensions that mark the platform.
    pub associated: Vec<Filter>,
}

/// Two values are interchangeable as folder names or patterns: equal after
/// trimming, ignoring ASCII case.
pub open spec fn eq_trim_ci(a: Seq<char>, b: Seq<char>) -> bool {
    lower(trim(a)) == lower(trim(b))
}

/// Some folder name in `b` is interchangeable with `v`.
pub open spec fn folder_counterpart(v: Seq<char>, b: Seq<String>) -> bool {
    exists|j: int| 0 <= j < b.len() && #[trigger] eq_trim_ci(v, b[j]@)
}

/// Some pattern in `b` is interchangeable with `v`.
pub open spec fn pattern_counterpart(v: Seq<char>, b: Seq<Filter>) -> bool {
    exists|j: int| 0 <= j < b.len() && #[trigger] eq_trim_ci(v, b[j]@)
}

/// The two folder lists have the same length and every folder of `a` is
/// interchangeable with some folder of `b`.
pub open spec fn folders_equivalent(a: Seq<String>, b: Seq<String>) -> bool {
    &&& a.len() == b.len()
    &&& forall|i: int| 0 <= i < a.len() ==> #[trigger] folder_counterpart(a[i]@, b)
}

/// The two pattern lists have the same length and every pattern of `a` is
/// interchangeable with some pattern of `b`.
pub open spec fn patterns_equivalent(a: Seq<Filter>, b: Seq<Filter>) -> bool {
    &&& a.len() == b.len()
    &&& forall|i: int| 0 <= i < a.len() ==> #[trigger] pattern_counterpart(a[i]@, b)
}

impl Platform {
    /// Two platforms produce the same effect: equally many folders and
    /// patterns, and each folder and pattern of one is interchangeable with
    /// one of the other.
    pub open spec fn spec_same_as(&self, other: &Self) -> bool {
        &&& folders_equivalent(self.folders@, other.folders@)
        &&& patterns_equivalent(self.associated@, other.associated@)
    }

    /// Checks if two supported platforms produce the same effect.
    pub fn same_as(&self, other: &Self) -> (r: bool)
        ensures
            r == self.spec_same_as(other),
    {
        if self.folders.len() != other.folders.len() {
            return false;
        }
        if self.associated.len() != other.associated.len() {
            return false;
        }
        let mut i: usize = 0;
        while i < self.folders.len()
            invariant
                i <= self.folders@.len(),
                self.folders@.len() == other.folders@.len(),
                forall|k: int|
                    0 <= k < i ==> #[trigger] folder_counterpart(self.folders@[k]@, other.folders@),
            decreases self.folders@.len() - i,
        {
            if !some_folder_interchangeable(&other.folders, self.folders[i].as_str()) {
                return false;
            }
            i = i + 1;
        }
        let mut i: usize = 0;
        while i < self.associated.len()
            invariant
                i <= self.associated@.len(),
                self.folders@.len() == other.folders@.len(),
                self.associated@.len() == other.associated@.len(),
                folders_equivalent(self.folders@, other.folders@),
                forall|k: int|
                    0 <= k < i ==> #[trigger] pattern_counterpart(
                        self.associated@[k]@,
                        other.associated@,
                    ),
            decreases self.associated@.len() - i,
        {
            if !some_pattern_interchangeable(&other.associated, self.associated[i].text()) {
                return false;
            }
            i = i + 1;
        }
        true
    }
}

/// Whether some element of `list` is interchangeable with `value`.
fn some_folder_interchangeable(list: &Vec<String>, value: &str) -> (r: bool)
    ensures
        r == folder_counterpart(value@, list@),
{
    let value_trimmed = trim_str(value);
    let mut j: usize = 0;
    while j < list.len()
        invariant
            j <= list@.len(),
            value_trimmed@ == trim(value@),
            forall|k: int| 0 <= k < j ==> !(#[trigger] eq_trim_ci(value@, list@[k]@)),
        decreases list@.len() - j,
    {
        let candidate = trim_str(list[j].as_str());
        if eq_ignore_case(value_trimmed.as_str(), candidate.as_str()) {
            assert(eq_trim_ci(value@, list@[j as int]@));
            return true;
        }
        j = j + 1;
    }
    false
}

/// Whether some pattern in `list` is interchangeable with `value`.
fn some_pattern_interchangeable(list: &Vec<Filter>, value: &str) -> (r: bool)
    ensures
        r == pattern_counterpart(value@, list@),
{
    let value_trimmed = trim_str(value);
    let mut j: usize = 0;
    while j < list.len()
        invariant
            j <= list@.len(),
            value_trimmed@ == trim(value@),
            forall|k: int| 0 <= k < j ==> !(#[trigger] eq_trim_ci(value@, list@[k]@)),
        decreases list@.len() - j,
    {
        let candidate = trim_str(list[j].text());
        if eq_ignore_case(value_trimmed.as_str(), candidate.as_str()) {
            assert(eq_trim_ci(value@, list@[j as int]@));
            return true;
        }
        j = j + 1;
    }
    false
}

} // verus!
