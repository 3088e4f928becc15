//! Terminal input as the dispatcher sees it, and the selection it moves.

use vstd::prelude::*;

verus! {

/// A key, reduced to what the dashboard tells apart.
#[derive(Debug, Clone, Copy, PartialEq, Eq)]
pub enum Key {
    Char(char),
    Up,
    Down,
    Enter,
    Other,
}

/// One event from the terminal. Everything that is not a key press is
/// `Ignored`.
#[derive(Debug, Clone, Copy, PartialEq, Eq)]
pub enum TermEvent {
    Key(Key),
    Ignored,
}

/// What a key asks for.
#[derive(Debug, Clone, Copy, PartialEq, Eq, Structural)]
pub enum Command {
    Refresh,
    Quit,
    MoveUp,
    MoveDown,
    Activate,
    Rebase,
    Nothing,
}

/// The fixed key map.
pub open spec fn command_of(event: TermEvent) -> Command {
    match event {
        TermEvent::Ignored => Command::Nothing,
        TermEvent::Key(key) => match key {
            Key::Char(c) => if c == 'r' || c == 'R' {
                Command::Refresh
            } else if c == 'q' || c == 'Q' {
                Command::Quit
            } else if c == 's' {
                Command::Rebase
            } else {
                Command::Nothing
            },
            Key::Up => Command::MoveUp,
            Key::Down => Command::MoveDown,
            Key::Enter => Command::Activate,
            Key::Other => Command::Nothing,
        },
    }
}

/// Maps a terminal event to the command it stands for. The map is total:
/// every event that is not bound maps to `Nothing`.
pub fn command_for(event: &TermEvent) -> (command: Command)
    ensures
        command == command_of(*event),
{
    match event {
        TermEvent::Ignored => Command::Nothing,
        TermEvent::Key(key) => match key {
            Key::Char(c) => if *c == 'r' || *c == 'R' {
                Command::Refresh
            } else if *c == 'q' || *c == 'Q' {
                Command::Quit
            } else if *c == 's' {
                Command::Rebase
            } else {
                Command::Nothing
            },
            Key::Up => Command::MoveUp,
            Key::Down => Command::MoveDown,
            Key::Enter => Command::Activate,
            Key::Other => Command::Nothing,
        },
    }
}

/// The selected row of the list, if any.
#[derive(Debug, Clone, Copy, PartialEq, Eq)]
pub struct Selection {
    pub index: Option<usize>,
}

impl Selection {
    /// The selection points into a list of `len` items; on an empty list
    /// that means that nothing is selected.
    pub open spec fn valid_for(self, len: nat) -> bool {
        match self.index {
            None => true,
            Some(i) => i < len,
        }
    }

    /// The selection brought back into a list of `len` items: an index past
    /// the end becomes the last index, and on an empty list nothing stays
    /// selected.
    pub open spec fn clamped(self, len: nat) -> Selection {
        match self.index {
            None => self,
            Some(i) => if len == 0 {
                Selection { index: None }
            } else if i >= len {
                Selection { index: Some((len - 1) as usize) }
            } else {
                self
            },
        }
    }

    /// One row up, without wrapping round. With nothing selected the first
    /// row is taken; on an empty list nothing is selected.
    pub open spec fn moved_up(self, len: nat) -> Selection {
        if len == 0 {
            Selection { index: None }
        } else {
            match self.clamped(len).index {
                None => Selection { index: Some(0) },
                Some(i) => Selection { index: Some(if i > 0 { (i - 1) as usize } else { 0 }) },
            }
        }
    }

    /// One row down, without wrapping round. With nothing selected the first
    /// row is taken; on an empty list nothing is selected.
    pub open spec fn moved_down(self, len: nat) -> Selection {
        if len == 0 {
            Selection { index: None }
        } else {
            match self.clamped(len).index {
                None => Selection { index: Some(0) },
                Some(i) => Selection {
                    index: Some(if i + 1 < len { (i + 1) as usize } else { (len - 1) as usize }),
                },
            }
        }
    }

    /// Nothing selected.
    pub fn none() -> (s: Selection)
        ensures
            s.index is None,
    {
        Selection { index: None }
    }

    /// Row `i` selected.
    pub fn at(i: usize) -> (s: Selection)
        ensures
            s.index == Some(i),
    {
        Selection { index: Some(i) }
    }

    /// Brings the selection back into a list of `len` items.
    pub fn clamp(self, len: usize) -> (s: Selection)
        ensures
            s == self.clamped(len as nat),
            s.valid_for(len as nat),
            len == 0 ==> s.index is None,
            self.valid_for(len as nat) ==> s == self,
    {
        match self.index {
            None => self,
            Some(i) => if len == 0 {
                Selection { index: None }
            } else if i >= len {
                Selection { index: Some(len - 1) }
            } else {
                self
            },
        }
    }

    /// Moves one row up in a list of `len` items.
    pub fn up(self, len: usize) -> (s: Selection)
        ensures
            s == self.moved_up(len as nat),
            s.valid_for(len as nat),
            len == 0 ==> s.index is None,
            len > 0 ==> s.index is Some,
    {
        if len == 0 {
            return Selection { index: None };
        }
        match self.clamp(len).index {
            None => Selection { index: Some(0) },
            Some(i) => Selection { index: Some(if i > 0 { i - 1 } else { 0 }) },
        }
    }

    /// Moves one row down in a list of `len` items.
    pub fn down(self, len: usize) -> (s: Selection)
        ensures
            s == self.moved_down(len as nat),
            s.valid_for(len as nat),
            len == 0 ==> s.index is None,
            len > 0 ==> s.index is Some,
    {
        if len == 0 {
            return Selection { index: None };
        }
        match self.clamp(len).index {
            None => Selection { index: Some(0) },
            Some(i) => Selection { index: Some(if i + 1 < len { i + 1 } else { len - 1 }) },
        }
    }
}

/// A selection that was valid for a list of `n` items and sits at `k` is,
/// once clamped to a list of `m` items, a valid selection of that list: an
/// index below `m`, or nothing when `m` is zero.
pub proof fn lemma_clamp_after_replace(k: usize, n: nat, m: nat)
    requires
        k < n,
    ensures
        (Selection { index: Some(k) }).clamped(m).valid_for(m),
        m == 0 ==> (Selection { index: Some(k) }).clamped(m).index is None,
        m > 0 ==> (Selection { index: Some(k) }).clamped(m).index is Some,
        m > 0 && m <= k ==> (Selection { index: Some(k) }).clamped(m).index == Some((m - 1) as usize),
        k < m ==> (Selection { index: Some(k) }).clamped(m).index == Some(k),
{
}

/// Clamping is idempotent, and every selection is valid once clamped.
pub proof fn lemma_clamp_settles(s: Selection, len: nat)
    ensures
        s.clamped(len).valid_for(len),
        s.clamped(len).clamped(len) == s.clamped(len),
        len == 0 ==> s.clamped(len).index is None,
{
}

/// Moving never leaves the list and never wraps round.
pub proof fn lemma_moves_stay_inside(s: Selection, len: nat)
    requires
        len > 0,
        len <= usize::MAX,
        s.valid_for(len),
    ensures
        s.moved_up(len).valid_for(len),
        s.moved_down(len).valid_for(len),
        s.index matches Some(i) ==> s.moved_up(len).index == Some(if i > 0 {
            (i - 1) as usize
        } else {
            0usize
        }),
        s.index matches Some(i) ==> s.moved_down(len).index == Some(if i + 1 < len {
            (i + 1) as usize
        } else {
            i
        }),
{
}

} // verus!
