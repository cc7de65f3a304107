//! A single match rule: a wildcard pattern kept together with its original
//! text. Equality and uniqueness of rules are decided on the original text,
//! case-insensitively; matching itself is case-sensitive, and callers that
//! want case-insensitive matching fold both sides first.

use vstd::prelude::*;

use crate::glob::{glob_match_at, glob_matches};
use crate::text::{chars_of, lower, lower_chars_of};

verus! {

/// A file-name match rule supporting `*` and `?` wildcards.
#[derive(Debug, Clone)]
pub struct Filter {
    text: String,
}

impl View for Filter {
    type V = Seq<char>;

    closed spec fn view(&self) -> Seq<char> {
        self.text@
    }
}

impl Filter {
    /// Initializes a new `Filter`.
    pub fn new(filter: String) -> (r: Self)
        ensures
            r@ == filter@,
    {
        Filter { text: filter }
    }

    /// The original pattern text.
    pub fn text(&self) -> (r: &str)
        ensures
            r@ == self@,
    {
        self.text.as_str()
    }

    /// Whether the pattern matches `value`, case-sensitively.
    pub fn matches(&self, value: &str) -> (r: bool)
        ensures
            r == glob_matches(self@, value@),
    {
        let p = chars_of(self.text.as_str());
        let t = chars_of(value);
        let r = glob_match_at(&p, 0, &t, 0);
        proof {
            assert(p@.skip(0) =~= self@);
            assert(t@.skip(0) =~= value@);
        }
        r
    }

    /// Whether the pattern matches `value` once both are lower-cased.
    pub fn matches_ignore_case(&self, value: &str) -> (r: bool)
        ensures
            r == glob_matches(lower(self@), lower(value@)),
    {
        let p = lower_chars_of(self.text.as_str());
        let t = lower_chars_of(value);
        let r = glob_match_at(&p, 0, &t, 0);
        proof {
            assert(p@.skip(0) =~= lower(self@));
            assert(t@.skip(0) =~= lower(value@));
        }
        r
    }
}

} // verus!
