//! The filter engine: the catalog, the live search string, the filtered
//! list derived from them, and the wraparound selection cursor.

use vstd::prelude::*;
use vstd::string::StrSliceExecFns;
use vstd::string::StringExecFns;
use crate::command::{matches_filter, Command};
use crate::filter::filter_matching;
use crate::launch::{all_spaces, command_run, split_spaces, CommandRun};
use crate::text::{lower_of, lowercase, push_char};

verus! {

/// One classified input key, as the host's input collaborator reports it.
pub enum InputEvent {
    /// Escape or interrupt: dismiss the overlay.
    Cancel,
    /// Launch the selected entry.
    Enter,
    /// Remove the last character of the search string.
    Backspace,
    /// A typed character (only ASCII letters, digits and whitespace count).
    Character(char),
    /// Move the cursor down.
    Down,
    /// Move the cursor up.
    Up,
    /// Anything else: ignored, and no redraw.
    Other,
}

/// What the host must do after an event was applied.
pub enum Action {
    /// Nothing changed: do not redraw.
    Ignore,
    /// The state changed: redraw the overlay.
    Redraw,
    /// Hide the overlay without launching anything.
    Hide,
    /// Hide the overlay and spawn the given command.
    Launch(CommandRun),
}

/// Unicode's White_Space code points: the ASCII blanks, next-line and
/// no-break space, and the dedicated space and separator characters.
pub open spec fn whitespace_char(c: char) -> bool {
    ||| c == ' '
    ||| c == '\t'
    ||| c == '\n'
    ||| c == '\x0b'
    ||| c == '\x0c'
    ||| c == '\r'
    ||| c == '\u{0085}'
    ||| c == '\u{00a0}'
    ||| c == '\u{1680}'
    ||| ('\u{2000}' <= c && c <= '\u{200a}')
    ||| c == '\u{2028}'
    ||| c == '\u{2029}'
    ||| c == '\u{202f}'
    ||| c == '\u{205f}'
    ||| c == '\u{3000}'
}

/// The characters a keystroke may add to the search string: ASCII letters,
/// digits and whitespace.
pub open spec fn allowed_char(c: char) -> bool {
    ||| 'a' <= c && c <= 'z'
    ||| 'A' <= c && c <= 'Z'
    ||| '0' <= c && c <= '9'
    ||| whitespace_char(c)
}

/// The catalog built from title/command pairs in their given order,
/// skipping pairs whose command text is nothing but spaces (those could
/// never launch).
pub open spec fn catalog_of(pairs: Seq<(String, String)>) -> Seq<Command>
    decreases pairs.len(),
{
    if pairs.len() == 0 {
        Seq::empty()
    } else {
        let rest = catalog_of(pairs.drop_last());
        let p = pairs.last();
        if all_spaces(p.1@) {
            rest
        } else {
            rest.push(Command { title: p.0, command_text: p.1 })
        }
    }
}

/// The launcher's state as the contracts speak of it.
#[verifier::ext_equal]
pub struct EngineModel {
    pub commands: Seq<Command>,
    pub filtered: Seq<Command>,
    pub search: Seq<char>,
    pub selected: int,
}

/// Where the cursor lands after the filtered list changed to length `len`:
/// clamped to the last valid index, or parked at zero when no valid index
/// exists.
pub open spec fn clamp_sel(sel: int, len: int) -> int {
    if len == 0 {
        0
    } else if sel >= len {
        len - 1
    } else {
        sel
    }
}

/// One step down with wraparound; with an empty list the cursor stays put.
pub open spec fn down_sel(sel: int, len: int) -> int {
    if len == 0 {
        sel
    } else {
        (sel + 1) % len
    }
}

/// One step up with wraparound; with an empty list the cursor stays put.
pub open spec fn up_sel(sel: int, len: int) -> int {
    if len == 0 {
        sel
    } else if sel == 0 {
        len - 1
    } else {
        sel - 1
    }
}

/// The whole effect of replacing the search string by `text`: the filtered
/// list is recomputed under the case-folded containment rule and the cursor
/// is clamped into it.
pub open spec fn set_filter_model(m: EngineModel, text: Seq<char>) -> EngineModel {
    let filtered = filter_matching(m.commands, lower_of(text));
    EngineModel {
        commands: m.commands,
        filtered,
        search: text,
        selected: clamp_sel(m.selected, filtered.len() as int),
    }
}

/// The launcher's state: the catalog, the filtered list cached from it,
/// the search string, and the cursor into the filtered list.
pub struct State {
    pub selected: usize,
    pub commands: Vec<Command>,
    pub filtered_commands: Vec<Command>,
    pub search_filter: String,
}

impl State {
    pub open spec fn model(&self) -> EngineModel {
        EngineModel {
            commands: self.commands@,
            filtered: self.filtered_commands@,
            search: self.search_filter@,
            selected: self.selected as int,
        }
    }

    /// The filtered list is exactly what the catalog and the search string
    /// derive, and the cursor is a valid index whenever that list is
    /// non-empty (and parked at zero when it is empty).
    pub open spec fn wf(&self) -> bool {
        &&& self.filtered_commands@ == filter_matching(
            self.commands@,
            lower_of(self.search_filter@),
        )
        &&& self.filtered_commands@.len() > 0 ==> (self.selected as int)
            < self.filtered_commands@.len()
        &&& self.filtered_commands@.len() == 0 ==> self.selected == 0
    }

    pub fn new() -> (s: State)
        ensures
            s.wf(),
            s.commands@.len() == 0,
            s.filtered_commands@.len() == 0,
            s.search_filter@.len() == 0,
            s.selected == 0,
    {
        State {
            selected: 0,
            commands: Vec::new(),
            filtered_commands: Vec::new(),
            search_filter: String::new(),
        }
    }

    /// Recomputes the filtered list from the catalog and the current search
    /// string, then clamps the cursor into the new list.
    pub fn update_filtered_commands(&mut self)
        ensures
            final(self).model() == set_filter_model(old(self).model(), old(self).search_filter@),
            final(self).commands == old(self).commands,
            final(self).search_filter == old(self).search_filter,
            old(self).search_filter@.len() == 0 ==> final(self).filtered_commands@ == old(
                self,
            ).commands@,
            final(self).wf(),
    {
        let needle = lowercase(self.search_filter.as_str());
        proof {
            if self.search_filter@.len() == 0 {
                crate::filter::lemma_filter_empty_needle(self.commands@, needle@);
            }
        }
        let mut filtered: Vec<Command> = Vec::new();
        let mut i: usize = 0;
        while i < self.commands.len()
            invariant
                i <= self.commands@.len(),
                *self == *old(self),
                needle@ == lower_of(self.search_filter@),
                filtered@ == filter_matching(self.commands@.subrange(0, i as int), needle@),
            decreases self.commands@.len() - i,
        {
            let ghost prefix = self.commands@.subrange(0, i as int);
            let c = &self.commands[i];
            if matches_filter(c, needle.as_str()) {
                filtered.push(c.clone());
            }
            proof {
                let longer = self.commands@.subrange(0, i + 1);
                assert(longer.drop_last() =~= prefix);
                assert(longer.last() == self.commands@[i as int]);
            }
            i += 1;
        }
        proof {
            assert(self.commands@.subrange(0, self.commands@.len() as int) =~= self.commands@);
        }
        self.filtered_commands = filtered;
        let len = self.filtered_commands.len();
        if len == 0 {
            self.selected = 0;
        } else if self.selected >= len {
            self.selected = len - 1;
        }
        proof {
            assert(self.model() =~= set_filter_model(old(self).model(), old(self).search_filter@));
        }
    }

    /// Replaces the search string, recomputes the filtered list and clamps
    /// the cursor.
    pub fn set_filter(&mut self, text: String)
        ensures
            final(self).model() == set_filter_model(old(self).model(), text@),
            final(self).commands == old(self).commands,
            text@.len() == 0 ==> final(self).filtered_commands@ == old(self).commands@,
            final(self).wf(),
    {
        self.search_filter = text;
        self.update_filtered_commands();
        proof {
            assert(self.model() =~= set_filter_model(old(self).model(), self.search_filter@));
        }
    }

    /// Appends one character to the search string, then behaves as
    /// `set_filter`.
    pub fn append_char(&mut self, c: char)
        ensures
            final(self).model() == set_filter_model(
                old(self).model(),
                old(self).search_filter@.push(c),
            ),
            final(self).commands == old(self).commands,
            final(self).wf(),
    {
        push_char(&mut self.search_filter, c);
        self.update_filtered_commands();
        proof {
            assert(self.model() =~= set_filter_model(
                old(self).model(),
                old(self).search_filter@.push(c),
            ));
        }
    }

    /// Removes the last character of the search string (a no-op when it is
    /// empty), then behaves as `set_filter`.
    pub fn backspace(&mut self)
        ensures
            final(self).model() == set_filter_model(
                old(self).model(),
                if old(self).search_filter@.len() == 0 {
                    old(self).search_filter@
                } else {
                    old(self).search_filter@.drop_last()
                },
            ),
            final(self).commands == old(self).commands,
            old(self).search_filter@.len() <= 1 ==> final(self).filtered_commands@ == old(
                self,
            ).commands@,
            final(self).wf(),
    {
        let len = self.search_filter.as_str().unicode_len();
        if len > 0 {
            let shorter = String::from_str(self.search_filter.as_str().substring_char(0, len - 1));
            proof {
                assert(shorter@ =~= old(self).search_filter@.drop_last());
            }
            self.search_filter = shorter;
        }
        self.update_filtered_commands();
        proof {
            assert(self.model() =~= set_filter_model(
                old(self).model(),
                if old(self).search_filter@.len() == 0 {
                    old(self).search_filter@
                } else {
                    old(self).search_filter@.drop_last()
                },
            ));
        }
    }

    /// Moves the cursor one entry down, wrapping to the top; with an empty
    /// filtered list the cursor stays put.
    pub fn select_down(&mut self)
        requires
            old(self).filtered_commands@.len() > 0 ==> (old(self).selected as int) < old(
                self,
            ).filtered_commands@.len(),
        ensures
            final(self).selected as int == down_sel(
                old(self).selected as int,
                old(self).filtered_commands@.len() as int,
            ),
            final(self).commands == old(self).commands,
            final(self).filtered_commands == old(self).filtered_commands,
            final(self).search_filter == old(self).search_filter,
            old(self).wf() ==> final(self).wf(),
    {
        let len = self.filtered_commands.len();
        if len > 0 {
            self.selected = (self.selected + 1) % len;
        }
    }

    /// Moves the cursor one entry up, wrapping to the bottom; with an empty
    /// filtered list the cursor stays put.
    pub fn select_up(&mut self)
        requires
            old(self).filtered_commands@.len() > 0 ==> (old(self).selected as int) < old(
                self,
            ).filtered_commands@.len(),
        ensures
            final(self).selected as int == up_sel(
                old(self).selected as int,
                old(self).filtered_commands@.len() as int,
            ),
            final(self).commands == old(self).commands,
            final(self).filtered_commands == old(self).filtered_commands,
            final(self).search_filter == old(self).search_filter,
            old(self).wf() ==> final(self).wf(),
    {
        let len = self.filtered_commands.len();
        if len == 0 {
            return ;
        }
        if self.selected == 0 {
            self.selected = len - 1;
        } else {
            self.selected = self.selected - 1;
        }
    }

    /// The entry under the cursor, or nothing when the filtered list is
    /// empty.
    pub fn current_selection(&self) -> (r: Option<Command>)
        requires
            self.filtered_commands@.len() > 0 ==> (self.selected as int)
                < self.filtered_commands@.len(),
        ensures
            match r {
                Option::None => self.filtered_commands@.len() == 0,
                Option::Some(c) => self.filtered_commands@.len() > 0 && c
                    == self.filtered_commands@[self.selected as int],
            },
    {
        if self.filtered_commands.len() == 0 {
            None
        } else {
            Some(self.filtered_commands[self.selected].clone())
        }
    }

    /// Extends the catalog by the given title/command pairs in their given
    /// order (the startup collaborator supplies them sorted by title),
    /// skipping pairs whose command text is nothing but spaces, then derives
    /// the filtered list.
    pub fn parse_commands(&mut self, commands_list: Vec<(String, String)>)
        ensures
            final(self).commands@ == old(self).commands@ + catalog_of(commands_list@),
            final(self).search_filter@ == old(self).search_filter@,
            final(self).model() == set_filter_model(
                (EngineModel {
                    commands: old(self).commands@ + catalog_of(commands_list@),
                    ..old(self).model()
                }),
                old(self).search_filter@,
            ),
            old(self).search_filter@.len() == 0 ==> final(self).filtered_commands@
                == final(self).commands@,
            final(self).wf(),
    {
        let mut i: usize = 0;
        while i < commands_list.len()
            invariant
                i <= commands_list@.len(),
                self.search_filter == old(self).search_filter,
                self.filtered_commands == old(self).filtered_commands,
                self.selected == old(self).selected,
                self.commands@ == old(self).commands@ + catalog_of(
                    commands_list@.subrange(0, i as int),
                ),
            decreases commands_list@.len() - i,
        {
            let ghost prefix = commands_list@.subrange(0, i as int);
            let pair = &commands_list[i];
            if !text_is_all_spaces(pair.1.as_str()) {
                self.commands.push(
                    Command { title: pair.0.clone(), command_text: pair.1.clone() },
                );
            }
            proof {
                let longer = commands_list@.subrange(0, i + 1);
                assert(longer.drop_last() =~= prefix);
                assert(longer.last() == commands_list@[i as int]);
            }
            i += 1;
        }
        proof {
            assert(commands_list@.subrange(0, commands_list@.len() as int) =~= commands_list@);
        }
        self.update_filtered_commands();
    }

    /// Applies one classified input event: mutates the search string or the
    /// cursor as the event asks, and says what the host must do next. With
    /// an empty filtered list, navigation and launch are no-ops rather than
    /// faults; hiding (cancel or launch) resets the search string.
    pub fn update(&mut self, event: InputEvent) -> (act: Action)
        requires
            old(self).wf(),
        ensures
            final(self).wf(),
            final(self).commands == old(self).commands,
            match event {
                InputEvent::Cancel => act == Action::Hide && final(self).model()
                    == set_filter_model(old(self).model(), Seq::empty())
                    && final(self).filtered_commands@ == old(self).commands@,
                InputEvent::Enter => final(self).model() == set_filter_model(
                    old(self).model(),
                    Seq::empty(),
                ) && final(self).filtered_commands@ == old(self).commands@ && if old(
                    self,
                ).filtered_commands@.len() == 0 {
                    act == Action::Hide
                } else {
                    {
                        let text = old(self).filtered_commands@[old(self).selected as int].command_text@;
                        &&& act matches Action::Launch(run)
                        &&& run.path@ == split_spaces(text)[0]
                        &&& run.args@.len() + 1 == split_spaces(text).len()
                        &&& forall|j: int|
                            0 <= j < run.args@.len() ==> #[trigger] run.args@[j]@ == split_spaces(
                                text,
                            )[j + 1]
                    }
                },
                InputEvent::Backspace => act == Action::Redraw && final(self).model()
                    == set_filter_model(
                    old(self).model(),
                    if old(self).search_filter@.len() == 0 {
                        old(self).search_filter@
                    } else {
                        old(self).search_filter@.drop_last()
                    },
                ),
                InputEvent::Character(c) => if allowed_char(c) {
                    act == Action::Redraw && final(self).model() == set_filter_model(
                        old(self).model(),
                        old(self).search_filter@.push(c),
                    )
                } else {
                    act == Action::Ignore && *final(self) == *old(self)
                },
                InputEvent::Down => if old(self).commands@.len() == 0 {
                    act == Action::Ignore && *final(self) == *old(self)
                } else {
                    &&& act == Action::Redraw
                    &&& final(self).selected as int == down_sel(
                        old(self).selected as int,
                        old(self).filtered_commands@.len() as int,
                    )
                    &&& final(self).filtered_commands == old(self).filtered_commands
                    &&& final(self).search_filter == old(self).search_filter
                },
                InputEvent::Up => if old(self).commands@.len() == 0 {
                    act == Action::Ignore && *final(self) == *old(self)
                } else {
                    &&& act == Action::Redraw
                    &&& final(self).selected as int == up_sel(
                        old(self).selected as int,
                        old(self).filtered_commands@.len() as int,
                    )
                    &&& final(self).filtered_commands == old(self).filtered_commands
                    &&& final(self).search_filter == old(self).search_filter
                },
                InputEvent::Other => act == Action::Ignore && *final(self) == *old(self),
            },
    {
        match event {
            InputEvent::Cancel => {
                self.search_filter = String::new();
                self.update_filtered_commands();
                Action::Hide
            },
            InputEvent::Enter => {
                let act = if self.filtered_commands.len() > 0 {
                    let run = command_run(&self.filtered_commands[self.selected]);
                    Action::Launch(run)
                } else {
                    Action::Hide
                };
                self.search_filter = String::new();
                self.update_filtered_commands();
                act
            },
            InputEvent::Backspace => {
                self.backspace();
                Action::Redraw
            },
            InputEvent::Character(c) => {
                if is_allowed_char(c) {
                    self.append_char(c);
                    Action::Redraw
                } else {
                    Action::Ignore
                }
            },
            InputEvent::Down => {
                if self.commands.len() == 0 {
                    Action::Ignore
                } else {
                    self.select_down();
                    Action::Redraw
                }
            },
            InputEvent::Up => {
                if self.commands.len() == 0 {
                    Action::Ignore
                } else {
                    self.select_up();
                    Action::Redraw
                }
            },
            InputEvent::Other => Action::Ignore,
        }
    }
}

/// The cursor after `n` single steps down a list of length `len`.
pub open spec fn down_n(sel: int, len: int, n: nat) -> int
    decreases n,
{
    if n == 0 {
        sel
    } else {
        down_sel(down_n(sel, len, (n - 1) as nat), len)
    }
}

/// Law: one step down then one step up, or the reverse, restores the
/// cursor, for any valid cursor in a non-empty filtered list.
pub proof fn lemma_down_up_restores(sel: int, len: int)
    requires
        0 < len,
        0 <= sel < len,
    ensures
        up_sel(down_sel(sel, len), len) == sel,
        down_sel(up_sel(sel, len), len) == sel,
{
    if sel + 1 < len {
        vstd::arithmetic::div_mod::lemma_small_mod((sel + 1) as nat, len as nat);
    } else {
        vstd::arithmetic::div_mod::lemma_mod_self_0(len);
    }
    if sel == 0 {
        vstd::arithmetic::div_mod::lemma_mod_self_0(len);
    } else {
        vstd::arithmetic::div_mod::lemma_small_mod(sel as nat, len as nat);
    }
}

/// The cursor after `n` steps down sits `n` past its start, modulo the
/// list length.
pub proof fn lemma_down_n_mod(sel: int, len: int, n: nat)
    requires
        0 < len,
        0 <= sel < len,
    ensures
        down_n(sel, len, n) == (sel + n) % len,
    decreases n,
{
    if n == 0 {
        vstd::arithmetic::div_mod::lemma_small_mod(sel as nat, len as nat);
    } else {
        lemma_down_n_mod(sel, len, (n - 1) as nat);
        vstd::arithmetic::div_mod::lemma_mod_bound(sel + n - 1, len);
        vstd::arithmetic::div_mod::lemma_add_mod_noop(sel + n - 1, 1, len);
        if len == 1 {
            vstd::arithmetic::div_mod::lemma_mod_self_0(len);
            vstd::arithmetic::div_mod::lemma_mod_twice(sel + n, len);
        } else {
            vstd::arithmetic::div_mod::lemma_small_mod(1nat, len as nat);
        }
    }
}

/// Law: stepping down once per entry of a non-empty filtered list brings
/// the cursor back to where it started (wraparound closure).
pub proof fn lemma_down_wraps_around(sel: int, len: int)
    requires
        0 < len,
        0 <= sel < len,
    ensures
        down_n(sel, len, len as nat) == sel,
{
    lemma_down_n_mod(sel, len, len as nat);
    vstd::arithmetic::div_mod::lemma_mod_add_multiples_vanish(sel, len);
    vstd::arithmetic::div_mod::lemma_small_mod(sel as nat, len as nat);
}

/// Law: setting the same search string twice yields the same filtered list
/// and the same clamped cursor as setting it once.
pub proof fn lemma_set_filter_idempotent(m: EngineModel, text: Seq<char>)
    ensures
        set_filter_model(set_filter_model(m, text), text) == set_filter_model(m, text),
{
    assert(set_filter_model(set_filter_model(m, text), text) =~= set_filter_model(m, text));
}

/// Decides `whitespace_char`.
pub fn is_whitespace_char(c: char) -> (r: bool)
    ensures
        r == whitespace_char(c),
{
    c == ' ' || c == '\t' || c == '\n' || c == '\x0b' || c == '\x0c' || c == '\r'
        || c == '\u{0085}' || c == '\u{00a0}' || c == '\u{1680}'
        || ('\u{2000}' <= c && c <= '\u{200a}') || c == '\u{2028}' || c == '\u{2029}'
        || c == '\u{202f}' || c == '\u{205f}' || c == '\u{3000}'
}

/// Decides `allowed_char`.
pub fn is_allowed_char(c: char) -> (r: bool)
    ensures
        r == allowed_char(c),
{
    ('a' <= c && c <= 'z') || ('A' <= c && c <= 'Z') || ('0' <= c && c <= '9')
        || is_whitespace_char(c)
}

/// Decides `all_spaces` on a string's characters.
fn text_is_all_spaces(s: &str) -> (r: bool)
    ensures
        r == all_spaces(s@),
{
    let len = s.unicode_len();
    let mut i: usize = 0;
    while i < len
        invariant
            i <= len,
            len == s@.len(),
            forall|k: int| 0 <= k < i ==> s@[k] == ' ',
        decreases len - i,
    {
        if s.get_char(i) != ' ' {
            return false;
        }
        i += 1;
    }
    true
}

impl Default for State {
    fn default() -> (s: Self)
        ensures
            s.wf(),
            s.commands@.len() == 0,
            s.filtered_commands@.len() == 0,
            s.search_filter@.len() == 0,
            s.selected == 0,
    {
        State::new()
    }
}

} // verus!
