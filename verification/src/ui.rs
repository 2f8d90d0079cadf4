//! The selection session's state machine: the query, its results and the
//! selection index, and the transition every key event causes. The
//! surrounding poll/redraw loop performs the actions this module decides.

use vstd::prelude::*;

use crate::config::KeyCode;
use crate::config::KeyPress;
use crate::config::Keybinds;
use crate::finder::filter;
use crate::finder::spec_filter;

verus! {

/// Relies on std's `String::push`: appends the character.
pub assume_specification[ String::push ](s: &mut String, ch: char)
    ensures
        final(s)@ == old(s)@.push(ch),
;

/// Relies on std's `String::pop`: removes and returns the last character;
/// `None` on an empty string.
pub assume_specification[ String::pop ](s: &mut String) -> (r: Option<char>)
    ensures
        old(s)@.len() == 0 ==> final(s)@ == old(s)@ && r is None,
        old(s)@.len() > 0 ==> final(s)@ == old(s)@.drop_last() && r == Option::Some(
            old(s)@.last(),
        ),
;

/// What the loop around the state machine must do after one key event:
/// redraw and go on, quit with no outcome, or submit the chosen branch name.
#[derive(Debug, PartialEq)]
pub enum UiAction {
    Redraw,
    Quit,
    Submit(String),
}

/// The selection index after moving to the next entry.
pub open spec fn next_index(len: int, sel: int) -> int {
    if len == 0 {
        0
    } else if sel + 1 < len {
        sel + 1
    } else {
        len - 1
    }
}

/// The selection index after moving to the previous entry.
pub open spec fn prev_index(sel: int) -> int {
    if sel > 0 {
        sel - 1
    } else {
        0
    }
}

/// The selection index re-clamped after the result set changed.
pub open spec fn clamp_index(len: int, sel: int) -> int {
    if len == 0 {
        0
    } else if sel < len {
        sel
    } else {
        len - 1
    }
}

/// The interactive session state. The haystack is the candidate set, fixed
/// for the session; the results always hold exactly the current needle's
/// matches, and the selection is always a valid index into them.
pub struct UI {
    pub needle: String,
    pub haystack: Vec<String>,
    pub results: Vec<String>,
    pub selected: usize,
    pub keybinds: Keybinds,
}

impl UI {
    /// The session invariant: the results are exactly the needle's matches
    /// over the candidate set, and the selection index is in range (zero on
    /// an empty result set).
    pub open spec fn wf(self) -> bool {
        &&& self.results.deep_view() == spec_filter(self.needle@, self.haystack.deep_view())
        &&& (self.results@.len() == 0 ==> self.selected == 0)
        &&& (self.results@.len() > 0 ==> (self.selected as int) < self.results@.len())
    }

    /// Start a session: the results are seeded with the needle's matches over
    /// the full candidate set, and the first entry is selected.
    pub fn new(keybinds: Keybinds, haystack: Vec<String>, needle: String) -> (r: UI)
        ensures
            r.wf(),
            r.keybinds == keybinds,
            r.haystack == haystack,
            r.needle == needle,
            r.selected == 0,
    {
        let results = filter(needle.as_str(), haystack.as_slice()).unwrap();
        UI { needle, haystack, results, selected: 0, keybinds }
    }

    /// Re-run the filter over the full candidate set and re-clamp the
    /// selection.
    fn refilter(&mut self)
        ensures
            final(self).needle == old(self).needle,
            final(self).haystack == old(self).haystack,
            final(self).keybinds == old(self).keybinds,
            final(self).results.deep_view() == spec_filter(
                final(self).needle@,
                final(self).haystack.deep_view(),
            ),
            final(self).selected as int == clamp_index(
                final(self).results@.len() as int,
                old(self).selected as int,
            ),
    {
        let new_results = filter(self.needle.as_str(), self.haystack.as_slice()).unwrap();
        self.results = new_results;
        if self.results.len() == 0 {
            self.selected = 0;
        } else if self.selected >= self.results.len() {
            self.selected = self.results.len() - 1;
        }
    }

    /// One step of the state machine. Dispatch order: quit keys first, then
    /// navigation, then submit, then printable characters (append to the
    /// needle and re-filter), then erase (drop the needle's last character
    /// and re-filter); any other key only redraws. Quit and submit leave the
    /// state untouched; an action is `Quit` exactly on a quit key, and
    /// `Submit` carries the selected result, only when one exists.
    pub fn handle_input(&mut self, key: KeyPress) -> (r: UiAction)
        requires
            old(self).wf(),
        ensures
            final(self).wf(),
            final(self).haystack == old(self).haystack,
            final(self).keybinds == old(self).keybinds,
            r is Quit <==> old(self).keybinds.is_quit(key),
            old(self).keybinds.is_quit(key) ==> *final(self) == *old(self),
            (!old(self).keybinds.is_quit(key) && old(self).keybinds.is_next(key)) ==> (r is Redraw
                && final(self).needle == old(self).needle && final(self).results == old(self).results
                && final(self).selected as int == next_index(
                old(self).results@.len() as int,
                old(self).selected as int,
            )),
            (!old(self).keybinds.is_quit(key) && !old(self).keybinds.is_next(key) && old(
                self,
            ).keybinds.is_prev(key)) ==> (r is Redraw && final(self).needle == old(self).needle
                && final(self).results == old(self).results && final(self).selected as int == prev_index(
                old(self).selected as int,
            )),
            (!old(self).keybinds.is_quit(key) && !old(self).keybinds.is_next(key) && !old(
                self,
            ).keybinds.is_prev(key) && old(self).keybinds.is_submit(key)) ==> (*final(self) == *old(self)
                && (if old(self).results@.len() > 0 {
                r matches UiAction::Submit(name) && name@ == old(self).results@[old(
                    self,
                ).selected as int]@
            } else {
                r is Redraw
            })),
            (!old(self).keybinds.is_quit(key) && !old(self).keybinds.is_next(key) && !old(
                self,
            ).keybinds.is_prev(key) && !old(self).keybinds.is_submit(key)) ==> (match key.code {
                KeyCode::Char(c) => r is Redraw && final(self).needle@ == old(
                    self,
                ).needle@.push(c) && final(self).selected as int == clamp_index(
                    final(self).results@.len() as int,
                    old(self).selected as int,
                ),
                KeyCode::Backspace => r is Redraw && final(self).needle@ == (if old(
                    self,
                ).needle@.len() == 0 {
                    old(self).needle@
                } else {
                    old(self).needle@.drop_last()
                }) && final(self).selected as int == clamp_index(
                    final(self).results@.len() as int,
                    old(self).selected as int,
                ),
                _ => r is Redraw && *final(self) == *old(self),
            }),
    {
        if key == self.keybinds.quit || key == self.keybinds.quit_alternate {
            return UiAction::Quit;
        }
        if key == self.keybinds.next || key == self.keybinds.next_alternate {
            if self.results.len() > 0 {
                if self.selected + 1 < self.results.len() {
                    self.selected = self.selected + 1;
                } else {
                    self.selected = self.results.len() - 1;
                }
            }
            return UiAction::Redraw;
        }
        if key == self.keybinds.prev || key == self.keybinds.prev_alternate {
            if self.selected > 0 {
                self.selected = self.selected - 1;
            }
            return UiAction::Redraw;
        }
        if key == self.keybinds.submit {
            if self.results.len() > 0 {
                let chosen = self.results[self.selected].clone();
                return UiAction::Submit(chosen);
            }
            return UiAction::Redraw;
        }
        match key.code {
            KeyCode::Char(c) => {
                self.needle.push(c);
                self.refilter();
                UiAction::Redraw
            },
            KeyCode::Backspace => {
                self.needle.pop();
                self.refilter();
                UiAction::Redraw
            },
            _ => UiAction::Redraw,
        }
    }
}

/// Typing one character and then erasing it leaves the result set exactly
/// where the original needle had it: the filter is re-run from the full
/// candidate set, never from the narrowed one.
pub proof fn lemma_type_then_erase(needle: Seq<char>, haystack: Seq<Seq<char>>, c: char)
    ensures
        spec_filter(needle.push(c).drop_last(), haystack) == spec_filter(needle, haystack),
{
    assert(needle.push(c).drop_last() =~= needle);
}

} // verus!
