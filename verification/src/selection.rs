//! The platform selection argument: either `all`, or an explicit list of
//! comma-separated values. Membership testing here ignores ASCII case.

use vstd::prelude::*;
use vstd::string::StringExecFns;

use crate::display::{list_output, list_output_spec};
use crate::text::{eq_ignore_case, is_all_input, is_all_token, lower, parse_tokens, parsed_values};

verus! {

/// Generic comma delimited multiple string values or "all" argument.
#[derive(Debug, Eq, PartialEq)]
pub enum Selection {
    /// Indicates "all" should be included.
    All,
    /// Defines only specific values.
    Select {
        /// The selected values.
        values: Vec<String>,
    },
}

/// Whether a selection includes the checked value: `All` includes everything,
/// an explicit list includes the values it names, ignoring ASCII case.
pub open spec fn selection_includes(s: Selection, checked: Seq<char>) -> bool {
    match s {
        Selection::All => true,
        Selection::Select { values } => exists|i: int|
            0 <= i < values@.len() && #[trigger] lower(values@[i]@) == lower(checked),
    }
}

impl Selection {
    /// Helper method for selecting between two values based on variant value.
    pub fn choose_value<'a, T: ?Sized>(&'a self, select: &'a T, all: &'a T) -> (r: &'a T)
        ensures
            self is All ==> r == all,
            self is Select ==> r == select,
    {
        match self {
            Self::All => all,
            Self::Select { .. } => select,
        }
    }

    /// Checks to see if value is included.
    pub fn matches(&self, checked: &str) -> (r: bool)
        ensures
            r == selection_includes(*self, checked@),
    {
        match self {
            Self::All => true,
            Self::Select { values } => any_value_matches_ci(values, checked),
        }
    }

    /// Helper method for determining if input requires pluralization: the
    /// plural form for `All` and for more than one selected value, nothing
    /// otherwise.
    pub fn pluralize<'a>(&'a self, plural: &'a str) -> (r: &'a str)
        ensures
            self is All ==> r == plural,
            (self matches Selection::Select { values } && values@.len() > 1) ==> r == plural,
            (self matches Selection::Select { values } && values@.len() <= 1) ==> r@
                == Seq::<char>::empty(),
    {
        match self {
            Self::All => plural,
            Self::Select { values } => {
                if values.len() > 1 {
                    plural
                } else {
                    let r = "";
                    proof {
                        reveal_strlit("");
                        assert(r@ =~= Seq::<char>::empty());
                    }
                    r
                }
            },
        }
    }

    /// Parses user input: the token `all` (ignoring case and whitespace)
    /// selects everything, anything else is read as comma-separated values,
    /// trimmed, with blank values dropped.
    pub fn parse(src: &str) -> (r: Selection)
        ensures
            r is All <==> is_all_token(src@),
            r matches Selection::Select { values } ==> values.deep_view() == parsed_values(src@),
    {
        if is_all_input(src) {
            Selection::All
        } else {
            Selection::Select { values: parse_tokens(src) }
        }
    }

    /// The readable form of the selection: `all`, or the selected values as
    /// a comma list.
    pub fn to_display_string(&self) -> (r: String)
        ensures
            self is All ==> r@ == "all"@,
            self matches Selection::Select { values } ==> r@ == list_output_spec(
                values.deep_view(),
            ),
    {
        match self {
            Self::All => String::from_str("all"),
            Self::Select { values } => list_output(values),
        }
    }
}

/// Whether some listed value equals `checked`, ignoring ASCII case.
fn any_value_matches_ci(values: &Vec<String>, checked: &str) -> (r: bool)
    ensures
        r == exists|i: int| 0 <= i < values@.len() && #[trigger] lower(values@[i]@) == lower(
            checked@,
        ),
{
    let mut i: usize = 0;
    while i < values.len()
        invariant
            i <= values@.len(),
            forall|k: int| 0 <= k < i ==> #[trigger] lower(values@[k]@) != lower(checked@),
        decreases values@.len() - i,
    {
        if eq_ignore_case(values[i].as_str(), checked) {
            return true;
        }
        i = i + 1;
    }
    false
}

impl core::str::FromStr for Selection {
    type Err = String;

    fn from_str(src: &str) -> Result<Selection, String> {
        Ok(Selection::parse(src))
    }
}

} // verus!
