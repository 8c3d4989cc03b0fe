//! The prompt controller: the state machine behind the blocking
//! free-text prompt (used to ask for a filename on save). Each
//! keystroke edits a local input text; Enter commits it only when
//! non-empty, Esc cancels and clears it.
use vstd::prelude::*;
use crate::chars::{chars_of, string_of};
use crate::input::{Key, Mods};

verus! {

/// The prompt's local input text.
pub struct PromptState {
    pub input: Vec<char>,
}

/// What one prompt keystroke led to.
#[derive(Debug)]
pub enum PromptStep {
    /// Keep prompting.
    Pending,
    /// The user committed this non-empty input.
    Commit(String),
    /// The user cancelled; the input was discarded.
    Cancel,
}

impl PromptState {
    pub fn new() -> (r: PromptState)
        ensures
            r.input@ == Seq::<char>::empty(),
    {
        PromptState { input: Vec::new() }
    }

    /// Feed one keystroke to the prompt: printable characters and Tab
    /// append, Backspace and Delete pop, Enter commits a non-empty
    /// input (an empty one keeps prompting), Esc cancels and clears.
    pub fn step(&mut self, key: Key, m: Mods) -> (r: PromptStep)
        ensures
            key == Key::Enter && m == Mods::Plain && old(self).input@.len() > 0 ==> ((r matches
                PromptStep::Commit(s) && s@ == old(self).input@) && final(self).input@ == old(
                self,
            ).input@),
            key == Key::Enter && m == Mods::Plain && old(self).input@.len() == 0 ==> (r matches
                PromptStep::Pending && final(self).input@ == old(self).input@),
            key == Key::Esc ==> (r matches PromptStep::Cancel && final(self).input@
                == Seq::<char>::empty()),
            key != Key::Esc && m == Mods::Plain && (key == Key::Backspace || key == Key::Delete)
                ==> (r matches PromptStep::Pending && final(self).input@ == (if old(
                self,
            ).input@.len() > 0 {
                old(self).input@.drop_last()
            } else {
                old(self).input@
            })),
            key != Key::Esc && (m == Mods::Plain || m == Mods::Shift) && key == Key::Tab ==> (r
                matches PromptStep::Pending && final(self).input@ == old(self).input@.push('\t')),
            forall|ch: char|
                key == Key::Char(ch) && (m == Mods::Plain || m == Mods::Shift) ==> (r matches
                    PromptStep::Pending && final(self).input@ == old(self).input@.push(ch)),
            !(key == Key::Esc || (key == Key::Enter && m == Mods::Plain) || (m == Mods::Plain && (
            key == Key::Backspace || key == Key::Delete)) || ((m == Mods::Plain || m == Mods::Shift)
                && (key == Key::Tab || key matches Key::Char(_)))) ==> (r matches
                PromptStep::Pending && final(self).input@ == old(self).input@),
    {
        match (key, m) {
            (Key::Enter, Mods::Plain) => {
                if self.input.len() > 0 {
                    PromptStep::Commit(string_of(&self.input))
                } else {
                    PromptStep::Pending
                }
            },
            (Key::Esc, _) => {
                self.input.clear();
                PromptStep::Cancel
            },
            (Key::Backspace, Mods::Plain) | (Key::Delete, Mods::Plain) => {
                let _popped = self.input.pop();
                PromptStep::Pending
            },
            (Key::Tab, Mods::Plain) | (Key::Tab, Mods::Shift) => {
                self.input.push('\t');
                PromptStep::Pending
            },
            (Key::Char(ch), Mods::Plain) | (Key::Char(ch), Mods::Shift) => {
                self.input.push(ch);
                PromptStep::Pending
            },
            _ => PromptStep::Pending,
        }
    }

    /// The message line shown while this prompt runs, with the current
    /// input interpolated into the template.
    pub fn status_line(&self) -> (r: Vec<char>)
        ensures
            r@ == "(Enter File Name : "@ + self.input@
                + "   | Press: ENTER to save / ESC to cancel save)"@,
    {
        let mut r = chars_of("(Enter File Name : ");
        let mut i: usize = 0;
        let ghost prefix: Seq<char> = r@;
        while i < self.input.len()
            invariant
                i <= self.input@.len(),
                r@ == prefix + self.input@.take(i as int),
            decreases self.input@.len() - i,
        {
            r.push(self.input[i]);
            proof {
                assert(prefix + self.input@.take(i + 1) =~= (prefix + self.input@.take(
                    i as int,
                )).push(self.input@[i as int]));
            }
            i = i + 1;
        }
        proof {
            assert(self.input@.take(self.input@.len() as int) =~= self.input@);
        }
        let mut suffix = chars_of("   | Press: ENTER to save / ESC to cancel save)");
        r.append(&mut suffix);
        proof {
            assert(r@ =~= "(Enter File Name : "@ + self.input@
                + "   | Press: ENTER to save / ESC to cancel save)"@);
        }
        r
    }
}

} // verus!
