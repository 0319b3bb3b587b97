//! The modal browsing state machine: a list of results, a wrapping cursor,
//! an interaction mode, and the transition table over key events. Terminal
//! drawing and the actual process spawn for opening a URL live outside; the
//! machine only reports which URL to open.
use vstd::prelude::*;

use crate::record::{opt_view, SearchResult};

verus! {

/// The interaction mode: `Normal` commands (quit, enter Insert), `Insert`
/// navigates the results.
#[derive(Clone, Copy, PartialEq, Eq, Structural, Debug)]
pub enum Mode {
    Normal,
    Insert,
}

/// A key event, freed of terminal details; anything the table does not
/// name maps to `Other`.
#[derive(Clone, Copy, PartialEq, Eq, Structural, Debug)]
pub enum Key {
    Char(char),
    Up,
    Down,
    Left,
    Right,
    Enter,
    Esc,
    Other,
}

/// The interactive browsing session.
#[verifier::ext_equal]
pub struct BrowseState {
    pub results: Vec<SearchResult>,
    pub cursor: Option<usize>,
    pub mode: Mode,
    pub query: String,
    pub should_quit: bool,
}

impl BrowseState {
    /// The session invariant: the cursor is `None` exactly on an empty
    /// result list, and otherwise a valid index.
    pub open spec fn wf(self) -> bool {
        match self.cursor {
            None => self.results@.len() == 0,
            Some(i) => i < self.results@.len(),
        }
    }

    /// The cursor one step forward, wrapping to the start past the end.
    pub open spec fn next_cursor(self) -> Option<usize> {
        match self.cursor {
            None => None,
            Some(i) => if i + 1 >= self.results@.len() {
                Some(0usize)
            } else {
                Some((i + 1) as usize)
            },
        }
    }

    /// The cursor one step back, wrapping to the last index before the
    /// start.
    pub open spec fn prev_cursor(self) -> Option<usize> {
        match self.cursor {
            None => None,
            Some(i) => if i == 0 {
                Some((self.results@.len() - 1) as usize)
            } else {
                Some((i - 1) as usize)
            },
        }
    }

    /// The URL an activate key would ask to open: the current result's
    /// URL, if a result is selected and its URL is non-empty.
    pub open spec fn open_target(self) -> Option<Seq<char>> {
        match self.cursor {
            None => None,
            Some(i) => if i < self.results@.len() && self.results@[i as int].url@.len() > 0 {
                Some(self.results@[i as int].url@)
            } else {
                None
            },
        }
    }

    /// Start a session over the extracted results: cursor on the first
    /// result if there is one, `Normal` mode, not quitting.
    pub fn new(results: Vec<SearchResult>, query: String) -> (r: BrowseState)
        ensures
            r.wf(),
            r.results == results,
            r.query == query,
            r.mode == Mode::Normal,
            r.should_quit == false,
            r.cursor == (if results@.len() == 0 {
                Option::<usize>::None
            } else {
                Some(0usize)
            }),
    {
        let cursor: Option<usize> = if results.len() == 0 {
            None
        } else {
            Some(0)
        };
        BrowseState { results, cursor, mode: Mode::Normal, query, should_quit: false }
    }

    /// Advance the cursor by one, wrapping to the start; a no-op on an
    /// empty result list.
    pub fn next(&mut self)
        requires
            old(self).wf(),
        ensures
            final(self).wf(),
            final(self).cursor == old(self).next_cursor(),
            final(self).results == old(self).results,
            final(self).mode == old(self).mode,
            final(self).query == old(self).query,
            final(self).should_quit == old(self).should_quit,
    {
        if self.results.len() == 0 {
            return ;
        }
        let i: usize = match self.cursor {
            Some(i) => if i >= self.results.len() - 1 {
                0
            } else {
                i + 1
            },
            None => 0,
        };
        self.cursor = Some(i);
    }

    /// Retreat the cursor by one, wrapping to the last index; a no-op on
    /// an empty result list.
    pub fn previous(&mut self)
        requires
            old(self).wf(),
        ensures
            final(self).wf(),
            final(self).cursor == old(self).prev_cursor(),
            final(self).results == old(self).results,
            final(self).mode == old(self).mode,
            final(self).query == old(self).query,
            final(self).should_quit == old(self).should_quit,
    {
        if self.results.len() == 0 {
            return ;
        }
        let i: usize = match self.cursor {
            Some(i) => if i == 0 {
                self.results.len() - 1
            } else {
                i - 1
            },
            None => 0,
        };
        self.cursor = Some(i);
    }

    /// The URL to open for the current selection, if any; the caller
    /// performs the fire-and-forget launch.
    pub fn open_selected(&self) -> (r: Option<String>)
        requires
            self.wf(),
        ensures
            opt_view(r) == self.open_target(),
    {
        match self.cursor {
            Some(i) => {
                if i < self.results.len() {
                    let url = &self.results[i].url;
                    if url.as_str().is_empty() {
                        None
                    } else {
                        Some(url.clone())
                    }
                } else {
                    None
                }
            },
            None => None,
        }
    }
}

/// The transition table over one key event: the state after the key.
pub open spec fn step(pre: BrowseState, key: Key) -> BrowseState {
    match pre.mode {
        Mode::Normal => if key == Key::Char('q') {
            BrowseState { should_quit: true, ..pre }
        } else if key == Key::Char('i') {
            BrowseState { mode: Mode::Insert, ..pre }
        } else {
            pre
        },
        Mode::Insert => if key == Key::Esc {
            BrowseState { mode: Mode::Normal, ..pre }
        } else if key == Key::Char('j') || key == Key::Down || key == Key::Char('l') || key
            == Key::Right {
            BrowseState { cursor: pre.next_cursor(), ..pre }
        } else if key == Key::Char('k') || key == Key::Up || key == Key::Char('h') || key
            == Key::Left {
            BrowseState { cursor: pre.prev_cursor(), ..pre }
        } else {
            pre
        },
    }
}

/// The side effect of one key event: the URL to open on the activate key
/// in `Insert` mode, and nothing otherwise.
pub open spec fn step_action(pre: BrowseState, key: Key) -> Option<Seq<char>> {
    if pre.mode == Mode::Insert && key == Key::Enter {
        pre.open_target()
    } else {
        None
    }
}

impl BrowseState {
    /// Apply one key event: the state becomes `step` of the old state, and
    /// the returned URL, if any, is `step_action` — the open request for
    /// the caller to dispatch.
    pub fn handle_key(&mut self, key: Key) -> (action: Option<String>)
        requires
            old(self).wf(),
        ensures
            final(self).wf(),
            *final(self) == step(*old(self), key),
            opt_view(action) == step_action(*old(self), key),
    {
        match self.mode {
            Mode::Normal => {
                match key {
                    Key::Char(c) => {
                        if c == 'q' {
                            self.should_quit = true;
                        } else if c == 'i' {
                            self.mode = Mode::Insert;
                        }
                    },
                    _ => {},
                }
                None
            },
            Mode::Insert => {
                match key {
                    Key::Esc => {
                        self.mode = Mode::Normal;
                        None
                    },
                    Key::Down | Key::Right => {
                        self.next();
                        None
                    },
                    Key::Up | Key::Left => {
                        self.previous();
                        None
                    },
                    Key::Char(c) => {
                        if c == 'j' || c == 'l' {
                            self.next();
                        } else if c == 'k' || c == 'h' {
                            self.previous();
                        }
                        None
                    },
                    Key::Enter => self.open_selected(),
                    _ => None,
                }
            },
        }
    }
}

/// Law: starting at the last index, one advance wraps the cursor to the
/// first; navigation stays inside the invariant.
pub proof fn lemma_advance_wraps(pre: BrowseState)
    requires
        pre.wf(),
        0 < pre.results@.len() <= usize::MAX,
        pre.cursor == Some((pre.results@.len() - 1) as usize),
    ensures
        pre.next_cursor() == Some(0usize),
{
}

/// Law: starting at the first index, one retreat wraps the cursor to the
/// last.
pub proof fn lemma_retreat_wraps(pre: BrowseState)
    requires
        pre.wf(),
        0 < pre.results@.len() <= usize::MAX,
        pre.cursor == Some(0usize),
    ensures
        pre.prev_cursor() == Some((pre.results@.len() - 1) as usize),
{
}

/// Law: on an empty result list every key leaves the cursor `None`.
pub proof fn lemma_navigation_empty(pre: BrowseState, key: Key)
    requires
        pre.wf(),
        pre.results@.len() == 0,
    ensures
        pre.next_cursor() is None,
        pre.prev_cursor() is None,
        step(pre, key).cursor is None,
{
}

/// Law: in `Normal` mode, any key other than quit and enter-insert leaves
/// the state unchanged and emits no action.
pub proof fn lemma_normal_inert(pre: BrowseState, key: Key)
    requires
        pre.mode == Mode::Normal,
        key != Key::Char('q'),
        key != Key::Char('i'),
    ensures
        step(pre, key) == pre,
        step_action(pre, key) is None,
{
}

/// Law: in `Insert` mode, any key other than escape, the navigation keys
/// and the activate key leaves the state unchanged and emits no action.
pub proof fn lemma_insert_inert(pre: BrowseState, key: Key)
    requires
        pre.mode == Mode::Insert,
        key != Key::Esc,
        key != Key::Enter,
        key != Key::Down,
        key != Key::Up,
        key != Key::Left,
        key != Key::Right,
        key != Key::Char('j'),
        key != Key::Char('k'),
        key != Key::Char('h'),
        key != Key::Char('l'),
    ensures
        step(pre, key) == pre,
        step_action(pre, key) is None,
{
}

/// Law: the activate key changes no state; it only emits the open
/// request for the current selection.
pub proof fn lemma_activate_pure(pre: BrowseState)
    requires
        pre.mode == Mode::Insert,
    ensures
        step(pre, Key::Enter) == pre,
        step_action(pre, Key::Enter) == pre.open_target(),
{
}

} // verus!
