//! Dispatch of one key press: the state change it makes and what the
//! surrounding loop must do next.

use vstd::prelude::*;
use crate::browser::{App, BrowserView};

verus! {

/// A key press, as far as the browser tells keys apart.
#[derive(Clone, Copy, Debug, PartialEq, Eq, Structural)]
pub enum Key {
    Enter,
    Backspace,
    Up,
    Down,
    Char(char),
    Other,
}

/// What the loop does after a key press.
#[derive(Clone, Copy, Debug, PartialEq, Eq, Structural)]
pub enum Action {
    /// Draw again and wait for the next key.
    Continue,
    /// Leave the loop.
    Quit,
    /// Check the selected entry's folder and open it with
    /// [`App::open_selected`].
    OpenSelected,
}

impl BrowserView {
    /// The state after a key press. In search mode Enter leaves search,
    /// Backspace deletes and a character is typed; in navigation mode `/`
    /// enters search and Down and Up move the cursor. Other keys change
    /// nothing.
    pub open spec fn after_key(self, key: Key) -> BrowserView {
        if self.searching {
            match key {
                Key::Enter => self.exited(),
                Key::Backspace => self.removed_last(),
                Key::Char(c) => self.appended(c),
                _ => self,
            }
        } else {
            match key {
                Key::Char(c) => if c == '/' {
                    self.entered()
                } else {
                    self
                },
                Key::Down => self.moved_next(),
                Key::Up => self.moved_previous(),
                _ => self,
            }
        }
    }

    /// In navigation mode `q` quits and Enter asks to open the selected
    /// entry; every other key, and every key in search mode, continues.
    pub open spec fn action_for(self, key: Key) -> Action {
        if self.searching {
            Action::Continue
        } else {
            match key {
                Key::Char(c) => if c == 'q' {
                    Action::Quit
                } else {
                    Action::Continue
                },
                Key::Enter => Action::OpenSelected,
                _ => Action::Continue,
            }
        }
    }
}

impl App {
    /// Applies one key press and says what the loop does next.
    pub fn handle_key(&mut self, key: Key) -> (r: Action)
        requires
            old(self)@.wf(),
        ensures
            final(self)@ == old(self)@.after_key(key),
            r == old(self)@.action_for(key),
            final(self)@.wf(),
    {
        if self.in_search_mode() {
            match key {
                Key::Enter => self.exit_search_mode(),
                Key::Backspace => self.remove_last_char(),
                Key::Char(c) => self.append_char(c),
                _ => {},
            }
            Action::Continue
        } else {
            match key {
                Key::Char(c) => {
                    if c == 'q' {
                        return Action::Quit;
                    } else if c == '/' {
                        self.enter_search_mode();
                    }
                    Action::Continue
                },
                Key::Down => {
                    self.next();
                    Action::Continue
                },
                Key::Up => {
                    self.previous();
                    Action::Continue
                },
                Key::Enter => Action::OpenSelected,
                _ => Action::Continue,
            }
        }
    }
}

} // verus!
