//! The launch boundary: splitting a command's text on single spaces into
//! the executable path and its argument list.

use vstd::prelude::*;
use vstd::string::StrSliceExecFns;
use crate::command::Command;
use crate::text::push_char;

verus! {

/// What the host is handed to spawn: the executable path and the ordered
/// argument list.
pub struct CommandRun {
    pub path: String,
    pub args: Vec<String>,
}

/// `s` holds nothing but spaces (in particular when it is empty): splitting
/// it on spaces yields no usable first token, so a catalog entry with such
/// a command text is a data-entry error.
pub open spec fn all_spaces(s: Seq<char>) -> bool {
    forall|i: int| 0 <= i < s.len() ==> s[i] == ' '
}

/// The pieces of `s` between single spaces, in order. Consecutive spaces
/// yield empty pieces (the split is naive, with no quoting), and there is
/// always at least one piece.
pub open spec fn split_spaces(s: Seq<char>) -> Seq<Seq<char>>
    decreases s.len(),
{
    if s.len() == 0 {
        seq![Seq::empty()]
    } else if s.last() == ' ' {
        split_spaces(s.drop_last()).push(Seq::empty())
    } else {
        let rest = split_spaces(s.drop_last());
        rest.update(rest.len() - 1, rest.last().push(s.last()))
    }
}

pub proof fn lemma_split_spaces_len(s: Seq<char>)
    ensures
        split_spaces(s).len() >= 1,
    decreases s.len(),
{
    if s.len() > 0 {
        lemma_split_spaces_len(s.drop_last());
    }
}

/// Splits `text` on single spaces, by characters.
fn split_text(text: &str) -> (tokens: Vec<String>)
    ensures
        tokens@.len() == split_spaces(text@).len(),
        forall|j: int| 0 <= j < tokens@.len() ==> #[trigger] tokens@[j]@ == split_spaces(text@)[j],
{
    let len = text.unicode_len();
    let mut done: Vec<String> = Vec::new();
    let mut cur: String = String::new();
    let mut i: usize = 0;
    while i < len
        invariant
            i <= len,
            len == text@.len(),
            done@.len() + 1 == split_spaces(text@.subrange(0, i as int)).len(),
            forall|j: int|
                0 <= j < done@.len() ==> #[trigger] done@[j]@ == split_spaces(
                    text@.subrange(0, i as int),
                )[j],
            cur@ == split_spaces(text@.subrange(0, i as int)).last(),
        decreases len - i,
    {
        let ghost prefix = text@.subrange(0, i as int);
        let c = text.get_char(i);
        if c == ' ' {
            done.push(cur);
            cur = String::new();
        } else {
            push_char(&mut cur, c);
        }
        proof {
            let longer = text@.subrange(0, i + 1);
            assert(longer.drop_last() =~= prefix);
            assert(longer.last() == text@[i as int]);
        }
        i += 1;
    }
    proof {
        assert(text@.subrange(0, text@.len() as int) =~= text@);
    }
    done.push(cur);
    done
}

/// Splits the command's text on single spaces: the first piece is the
/// executable path, the remaining pieces are the arguments.
pub fn command_run(c: &Command) -> (r: CommandRun)
    ensures
        r.path@ == split_spaces(c.command_text@)[0],
        r.args@.len() + 1 == split_spaces(c.command_text@).len(),
        forall|j: int|
            0 <= j < r.args@.len() ==> #[trigger] r.args@[j]@ == split_spaces(c.command_text@)[j
                + 1],
{
    proof {
        lemma_split_spaces_len(c.command_text@);
    }
    let tokens = split_text(c.command_text.as_str());
    let path = tokens[0].clone();
    let mut args: Vec<String> = Vec::new();
    let mut k: usize = 1;
    while k < tokens.len()
        invariant
            1 <= k <= tokens@.len(),
            tokens@.len() == split_spaces(c.command_text@).len(),
            forall|j: int|
                0 <= j < tokens@.len() ==> #[trigger] tokens@[j]@ == split_spaces(
                    c.command_text@,
                )[j],
            args@.len() == k - 1,
            forall|j: int|
                0 <= j < args@.len() ==> #[trigger] args@[j]@ == split_spaces(c.command_text@)[j
                    + 1],
        decreases tokens@.len() - k,
    {
        args.push(tokens[k].clone());
        k += 1;
    }
    CommandRun { path, args }
}

} // verus!
