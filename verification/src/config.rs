//! Key events and the keybind table the selection loop is configured with.

use vstd::prelude::*;

verus! {

/// The key alphabet the selection loop distinguishes. Any other key the
/// terminal can report is `Other`: it can neither be bound nor typed.
#[derive(Clone, Copy, PartialEq, Eq, Structural, Debug)]
pub enum KeyCode {
    Char(char),
    Tab,
    BackTab,
    Enter,
    Esc,
    Up,
    Down,
    Backspace,
    Other,
}

/// One key event: a key code with its modifier set.
#[derive(Clone, Copy, PartialEq, Eq, Structural, Debug)]
pub struct KeyPress {
    pub code: KeyCode,
    pub shift: bool,
    pub ctrl: bool,
    pub alt: bool,
}

/// The configurable keybind table: next, prev, submit and quit, each with one
/// alternate where the terminal offers two conventional keys.
#[derive(Clone, Copy, PartialEq, Eq, Structural, Debug)]
pub struct Keybinds {
    pub next: KeyPress,
    pub next_alternate: KeyPress,
    pub prev: KeyPress,
    pub prev_alternate: KeyPress,
    pub submit: KeyPress,
    pub quit: KeyPress,
    pub quit_alternate: KeyPress,
}

impl Keybinds {
    pub open spec fn is_quit(self, key: KeyPress) -> bool {
        key == self.quit || key == self.quit_alternate
    }

    pub open spec fn is_next(self, key: KeyPress) -> bool {
        key == self.next || key == self.next_alternate
    }

    pub open spec fn is_prev(self, key: KeyPress) -> bool {
        key == self.prev || key == self.prev_alternate
    }

    pub open spec fn is_submit(self, key: KeyPress) -> bool {
        key == self.submit
    }
}

} // verus!
