//! Answers to a yes-or-no question.

use crate::spelling::{said_in_any_case, says};
use vstd::prelude::*;

verus! {

/// What the user answered.
#[derive(Clone, Copy, Debug, PartialEq, Eq, Structural)]
pub enum Answer {
    Yes,
    No,
    /// Neither: the question is asked again.
    Unclear,
}

/// The answer that `text` gives: yes for `y` or `yes`, no for `n` or `no`,
/// in whatever case the letters stand.
pub open spec fn answer_given(text: Seq<char>) -> Answer {
    if says(text, "y"@) || says(text, "yes"@) {
        Answer::Yes
    } else if says(text, "n"@) || says(text, "no"@) {
        Answer::No
    } else {
        Answer::Unclear
    }
}

impl Answer {
    /// Reads a line as an answer.
    pub fn parse(text: &str) -> (answer: Answer)
        ensures
            answer == answer_given(text@),
    {
        proof {
            reveal_strlit("y");
            reveal_strlit("yes");
            reveal_strlit("n");
            reveal_strlit("no");
        }
        if said_in_any_case(text, "y") || said_in_any_case(text, "yes") {
            Answer::Yes
        } else if said_in_any_case(text, "n") || said_in_any_case(text, "no") {
            Answer::No
        } else {
            Answer::Unclear
        }
    }
}

} // verus!
