//! The text that a thread aborts with where outside work that has to succeed failed.

use vstd::prelude::*;

verus! {

/// What to abort with where the outcome was an error with this debug text.
pub open spec fn abort_text(error: Seq<char>) -> Seq<char> {
    "called `Result::unwrap()` on an `Err` value: "@ + error
}

/// What to abort with where the outcome was an error with this debug text.
pub fn abort_message(error: &String) -> (message: String)
    ensures
        message@ == abort_text(error@),
{
    "called `Result::unwrap()` on an `Err` value: ".to_string().concat(error.as_str())
}

} // verus!
