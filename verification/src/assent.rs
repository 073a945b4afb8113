//! The operator's answer to the question whether the displayed configuration
//! is the one to deploy.

use vstd::prelude::*;

use crate::text::text_equal;

verus! {

/// Whether the operator agreed to go on with the displayed configuration.
#[derive(Clone, Copy, Debug, PartialEq, Eq, Structural)]
pub enum UserAssent {
    Rejected,
    Accepted,
}

/// What a line typed by the operator means: `yes` accepts, `no` rejects, and
/// after anything else the question is asked again. The line is taken with
/// its line feed.
pub open spec fn reply_meaning(line: Seq<char>) -> Option<UserAssent> {
    if line == "yes\n"@ {
        Some(UserAssent::Accepted)
    } else if line == "no\n"@ {
        Some(UserAssent::Rejected)
    } else {
        None
    }
}

/// Reads the operator's answer from a line of input.
pub fn assent_from_reply(line: &str) -> (assent: Option<UserAssent>)
    ensures
        assent == reply_meaning(line@),
{
    if text_equal(line, "yes\n") {
        Some(UserAssent::Accepted)
    } else if text_equal(line, "no\n") {
        Some(UserAssent::Rejected)
    } else {
        None
    }
}

} // verus!
