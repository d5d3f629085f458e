//! The decisions of the interaction loop: which command a key stands for, and what the
//! loop does next once the command has been applied to the catalog.
use vstd::prelude::*;
use crate::catalog::Documents;
use crate::cursor::{next_sel, prev_sel};
use crate::dispatch::{viewer_of, OpenRequest};
use crate::error::BrowseError;

verus! {

/// A key press, as far as the browser tells keys apart.
#[derive(Clone, Copy, Debug, PartialEq, Eq, Structural)]
pub enum Key {
    Char(char),
    Up,
    Down,
    Other,
}

/// What the user asked for.
#[derive(Clone, Copy, Debug, PartialEq, Eq, Structural)]
pub enum Command {
    Quit,
    Next,
    Prev,
    Open,
    Ignore,
}

/// The key bindings: `q` quits; `j` or Up moves on; `k` or Down moves back; `o` or `l`
/// opens the selected document; every other key is ignored.
pub open spec fn command_of(key: Key) -> Command {
    match key {
        Key::Char('q') => Command::Quit,
        Key::Char('j') | Key::Up => Command::Next,
        Key::Char('k') | Key::Down => Command::Prev,
        Key::Char('o') | Key::Char('l') => Command::Open,
        _ => Command::Ignore,
    }
}

pub fn command_for(key: Key) -> (r: Command)
    ensures
        r == command_of(key),
{
    match key {
        Key::Char('q') => Command::Quit,
        Key::Char('j') | Key::Up => Command::Next,
        Key::Char('k') | Key::Down => Command::Prev,
        Key::Char('o') | Key::Char('l') => Command::Open,
        _ => Command::Ignore,
    }
}

/// What the loop does after a key.
pub enum Action {
    /// Leave the loop and end the program.
    Quit,
    /// Draw the catalog again and wait for the next key.
    Redraw,
    /// Run the viewer, wait for it to exit, then draw again.
    Open(OpenRequest),
    /// Tell the user of a failure, then draw again.
    Report(BrowseError),
}

impl Documents {
    /// Applies the command that `key` stands for and says what the loop does next.
    pub fn handle(&mut self, key: Key) -> (r: Action)
        requires
            old(self).wf(),
        ensures
            final(self).wf(),
            final(self).docs() == old(self).docs(),
            ({
                let n = old(self).docs().len() as int;
                let s = old(self).selection();
                match command_of(key) {
                    Command::Quit => r is Quit && final(self).selection() == s,
                    Command::Next => if n == 0 {
                        r == Action::Report(BrowseError::EmptyCatalog) && final(self).selection() == s
                    } else {
                        r is Redraw && final(self).selection() == next_sel(s, n)
                    },
                    Command::Prev => if n == 0 {
                        r == Action::Report(BrowseError::EmptyCatalog) && final(self).selection() == s
                    } else {
                        r is Redraw && final(self).selection() == prev_sel(s, n)
                    },
                    Command::Open => final(self).selection() == s && match s {
                        None => r is Redraw,
                        Some(i) => r is Open && r->Open_0.path@ == old(self).docs()[i].path@
                            && r->Open_0.viewer == viewer_of(old(self).docs()[i].ext@),
                    },
                    Command::Ignore => r is Redraw && final(self).selection() == s,
                }
            }),
    {
        match command_for(key) {
            Command::Quit => Action::Quit,
            Command::Next => match self.next() {
                Ok(()) => Action::Redraw,
                Err(e) => Action::Report(e),
            },
            Command::Prev => match self.prev() {
                Ok(()) => Action::Redraw,
                Err(e) => Action::Report(e),
            },
            Command::Open => match self.open() {
                Some(req) => Action::Open(req),
                None => Action::Redraw,
            },
            Command::Ignore => Action::Redraw,
        }
    }
}

} // verus!
