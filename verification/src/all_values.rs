//! The generic `all`-or-list argument. Unlike `Selection`, membership
//! testing here is case-sensitive.

use vstd::prelude::*;
use vstd::string::StringExecFns;

use crate::display::join_sep;
use crate::text::{eq_exact, is_all_input, is_all_token, parse_tokens, parsed_values};

verus! {

/// Generic comma delimited multiple string values or "all" argument.
#[derive(Debug, Eq, PartialEq)]
pub enum AllValues {
    /// Indicates "all" should be included.
    All,
    /// Defines only specific values.
    Values {
        /// The listed values.
        values: Vec<String>,
    },
}

/// Whether the argument includes the checked value: `All` includes
/// everything, an explicit list exactly the values it names.
pub open spec fn all_values_includes(s: AllValues, checked: Seq<char>) -> bool {
    match s {
        AllValues::All => true,
        AllValues::Values { values } => exists|i: int|
            0 <= i < values@.len() && #[trigger] values@[i]@ == checked,
    }
}

impl AllValues {
    /// Helper method for selecting between two values based on variant.
    pub fn for_all<'a, T: ?Sized>(&'a self, value: &'a T, other: &'a T) -> (r: &'a T)
        ensures
            self is All ==> r == value,
            self is Values ==> r == other,
    {
        match self {
            Self::All => value,
            Self::Values { .. } => other,
        }
    }

    /// Helper method for selecting between two values based on variant.
    pub fn for_select<'a, T: ?Sized>(&'a self, value: &'a T, other: &'a T) -> (r: &'a T)
        ensures
            self is All ==> r == other,
            self is Values ==> r == value,
    {
        match self {
            Self::All => other,
            Self::Values { .. } => value,
        }
    }

    /// Checks to see if value is included.
    pub fn matches(&self, checked: &str) -> (r: bool)
        ensures
            r == all_values_includes(*self, checked@),
    {
        match self {
            Self::All => true,
            Self::Values { values } => any_value_matches(values, checked),
        }
    }

    /// Helper method for determining if input requires pluralization.
    pub fn pluralize<'a>(&'a self, plural: &'a str) -> (r: &'a str)
        ensures
            self is All ==> r == plural,
            (self matches AllValues::Values { values } && values@.len() > 1) ==> r == plural,
            (self matches AllValues::Values { values } && values@.len() <= 1) ==> r@
                == Seq::<char>::empty(),
    {
        match self {
            Self::All => plural,
            Self::Values { values } => {
                if values.len() > 1 {
                    plural
                } else {
                    let r = "";
                    proof {
                        reveal_strlit("");
                        assert(r@ =~= Seq::<char>::empty());
                    }
                    r
                }
            },
        }
    }

    /// Parses user input, exactly as `Selection::parse` does.
    pub fn parse(src: &str) -> (r: AllValues)
        ensures
            r is All <==> is_all_token(src@),
            r matches AllValues::Values { values } ==> values.deep_view() == parsed_values(src@),
    {
        if is_all_input(src) {
            AllValues::All
        } else {
            AllValues::Values { values: parse_tokens(src) }
        }
    }

    /// The readable form of the argument: `all`, or the values joined with
    /// commas.
    pub fn to_display_string(&self) -> (r: String)
        ensures
            self is All ==> r@ == "all"@,
            self matches AllValues::Values { values } ==> r@ == join_sep(values.deep_view()),
    {
        match self {
            Self::All => String::from_str("all"),
            Self::Values { values } => {
                let mut out = String::new();
                let mut i: usize = 0;
                proof {
                    assert(values.deep_view().take(0) =~~= Seq::<Seq<char>>::empty());
                }
                while i < values.len()
                    invariant
                        i <= values@.len(),
                        out@ == join_sep(values.deep_view().take(i as int)),
                    decreases values@.len() - i,
                {
                    if i > 0 {
                        out.append(", ");
                    }
                    out.append(values[i].as_str());
                    i = i + 1;
                    proof {
                        let taken = values.deep_view().take(i as int);
                        assert(taken.drop_last() =~~= values.deep_view().take(i - 1));
                        assert(taken.last() == values@[i - 1]@);
                    }
                }
                proof {
                    assert(values.deep_view().take(values@.len() as int) =~~= values.deep_view());
                }
                out
            },
        }
    }
}

/// Whether some listed value equals `checked` exactly.
fn any_value_matches(values: &Vec<String>, checked: &str) -> (r: bool)
    ensures
        r == exists|i: int| 0 <= i < values@.len() && #[trigger] values@[i]@ == checked@,
{
    let mut i: usize = 0;
    while i < values.len()
        invariant
            i <= values@.len(),
            forall|k: int| 0 <= k < i ==> #[trigger] values@[k]@ != checked@,
        decreases values@.len() - i,
    {
        if eq_exact(values[i].as_str(), checked) {
            return true;
        }
        i = i + 1;
    }
    false
}

impl core::str::FromStr for AllValues {
    type Err = String;

    fn from_str(src: &str) -> Result<AllValues, String> {
        Ok(AllValues::parse(src))
    }
}

} // verus!
