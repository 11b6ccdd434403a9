//! A catalog entry: a titled shell command, and the rule deciding whether
//! it matches a search needle.

use vstd::prelude::*;
use vstd::string::StringExecFns;
use crate::text::{contains_seq, contains_str, lower_of, lowercase};

verus! {

/// One launchable entry: a display title, and the command text that is
/// split into an executable path and arguments at launch time.
pub struct Command {
    pub title: String,
    pub command_text: String,
}

impl Command {
    /// The one-line rendering of the entry: the title and the command text,
    /// separated by a pipe.
    pub fn display_string(&self) -> (r: String)
        ensures
            r@ == self.title@ + " | "@ + self.command_text@,
    {
        let mut r = self.title.clone();
        r.append(" | ");
        r.append(self.command_text.as_str());
        r
    }
}

impl Clone for Command {
    fn clone(&self) -> (r: Self)
        ensures
            r == *self,
    {
        Command { title: self.title.clone(), command_text: self.command_text.clone() }
    }
}

/// The entry matches an (already lower-cased) search needle: the needle
/// occurs in the lower-cased title or in the lower-cased command text.
pub open spec fn command_matches(c: Command, needle: Seq<char>) -> bool {
    contains_seq(lower_of(c.title@), needle) || contains_seq(lower_of(c.command_text@), needle)
}

/// Decides `command_matches` for a needle that is already lower case.
pub fn matches_filter(c: &Command, needle: &str) -> (r: bool)
    ensures
        r == command_matches(*c, needle@),
{
    let folded_title = lowercase(c.title.as_str());
    if contains_str(folded_title.as_str(), needle) {
        true
    } else {
        let folded_text = lowercase(c.command_text.as_str());
        contains_str(folded_text.as_str(), needle)
    }
}

} // verus!
