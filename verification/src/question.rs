//! The yes/no question model: what a default answer looks like in a prompt,
//! and how one byte of user input is read as an answer.

use vstd::prelude::*;
use vstd::string::StringExecFns;

verus! {

/// Default answer for a yes/no question.
#[derive(Copy, Clone, Eq, PartialEq, Debug)]
pub enum DefaultAnswer {
    /// Default answer to Yes.
    Yes,
    /// Default answer to No.
    No,
}

/// Response of a yes/no user input question.
#[derive(Copy, Clone, Eq, PartialEq, Debug)]
pub enum Response {
    /// User responded Yes.
    Yes {
        /// User response was selected default, by pressing the enter key.
        defaulted: bool,
    },
    /// User responded No.
    No {
        /// User response was selected default, by pressing the enter key.
        defaulted: bool,
    },
}

/// ASCII lower-casing of one byte.
pub open spec fn lower_byte(b: u8) -> u8 {
    if 65 <= b <= 90 {
        (b + 32) as u8
    } else {
        b
    }
}

impl DefaultAnswer {
    /// The hint shown in the prompt: the default answer capitalized.
    pub fn to_display_string(&self) -> (r: String)
        ensures
            *self == DefaultAnswer::Yes ==> r@ == "Y/n"@,
            *self == DefaultAnswer::No ==> r@ == "y/N"@,
    {
        match self {
            DefaultAnswer::Yes => String::from_str("Y/n"),
            DefaultAnswer::No => String::from_str("y/N"),
        }
    }
}

/// Reads one byte of input as an answer: `y` and `n` (in either case) answer
/// outright; anything else falls back to the default, counted as defaulted
/// exactly when the byte is the enter key.
pub fn interpret_answer(input: u8, default_answer: DefaultAnswer) -> (r: Response)
    ensures
        lower_byte(input) == 121 ==> r == (Response::Yes { defaulted: false }),
        lower_byte(input) == 110 ==> r == (Response::No { defaulted: false }),
        (lower_byte(input) != 121 && lower_byte(input) != 110) ==> r == (match default_answer {
            DefaultAnswer::Yes => Response::Yes { defaulted: input == 10 },
            DefaultAnswer::No => Response::No { defaulted: input == 10 },
        }),
{
    let lowered: u8 = if input >= 65 && input <= 90 {
        input + 32
    } else {
        input
    };
    if lowered == 121 {
        Response::Yes { defaulted: false }
    } else if lowered == 110 {
        Response::No { defaulted: false }
    } else {
        match default_answer {
            DefaultAnswer::Yes => Response::Yes { defaulted: input == 10 },
            DefaultAnswer::No => Response::No { defaulted: input == 10 },
        }
    }
}

} // verus!
