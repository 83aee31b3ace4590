use vstd::prelude::*;
use crate::actions::Key;
use crate::entry::{Entry, EntryModel, entries_view};

verus! {

/// The selection list of a selective commit: the batch of entries the
/// backend reported, with one of them current.
#[derive(Debug)]
pub struct SelectionList {
    pub entries: Vec<Entry>,
    pub cursor: usize,
}

/// The model of a selection list.
#[verifier::ext_equal]
pub struct ListModel {
    pub entries: Seq<EntryModel>,
    pub cursor: int,
}

impl View for SelectionList {
    type V = ListModel;

    open spec fn view(&self) -> ListModel {
        ListModel { entries: entries_view(self.entries@), cursor: self.cursor as int }
    }
}

impl ListModel {
    /// The cursor points at an entry whenever there is one; an empty list
    /// keeps it at zero.
    pub open spec fn wf(self) -> bool {
        if self.entries.len() == 0 {
            self.cursor == 0
        } else {
            0 <= self.cursor < self.entries.len()
        }
    }
}

/// The entry at `i` with its inclusion flag flipped; membership, order and
/// paths are untouched.
pub open spec fn toggle_at(s: Seq<EntryModel>, i: int) -> Seq<EntryModel> {
    s.update(i, EntryModel { path: s[i].path, included: !s[i].included })
}

/// The cursor one step down from `i`, wrapping past the last entry to the
/// first.
pub open spec fn cursor_next(len: int, i: int) -> int {
    if len == 0 {
        0
    } else if i + 1 == len {
        0
    } else {
        i + 1
    }
}

/// The cursor one step up from `i`, wrapping past the first entry to the
/// last.
pub open spec fn cursor_prev(len: int, i: int) -> int {
    if len == 0 {
        0
    } else if i == 0 {
        len - 1
    } else {
        i - 1
    }
}

/// How the selection list leaves: still active, confirmed with the current
/// flags, or aborted with the whole batch discarded.
#[derive(Clone, Copy, Debug, PartialEq, Eq, Structural)]
pub enum SelectOutcome {
    Pending,
    Confirmed,
    Aborted,
}

/// The selection list's reaction to one key: the list afterwards and how it
/// leaves, if it does. Down or `j` moves down, up or `k` moves up (both with
/// wraparound), space toggles the current entry, enter confirms, ctrl+c
/// aborts; any other key changes nothing.
pub open spec fn select_step(l: ListModel, key: Key) -> (ListModel, SelectOutcome) {
    match key {
        Key::Down => (ListModel { cursor: cursor_next(l.entries.len() as int, l.cursor), ..l }, SelectOutcome::Pending),
        Key::Char('j') => (ListModel { cursor: cursor_next(l.entries.len() as int, l.cursor), ..l }, SelectOutcome::Pending),
        Key::Up => (ListModel { cursor: cursor_prev(l.entries.len() as int, l.cursor), ..l }, SelectOutcome::Pending),
        Key::Char('k') => (ListModel { cursor: cursor_prev(l.entries.len() as int, l.cursor), ..l }, SelectOutcome::Pending),
        Key::Char(' ') => (
            if l.entries.len() == 0 {
                l
            } else {
                ListModel { entries: toggle_at(l.entries, l.cursor), ..l }
            },
            SelectOutcome::Pending,
        ),
        Key::Char('\n') => (l, SelectOutcome::Confirmed),
        Key::Ctrl('c') => (l, SelectOutcome::Aborted),
        _ => (l, SelectOutcome::Pending),
    }
}

impl SelectionList {
    /// Builds the selection list over a batch of entries, the first one
    /// current.
    pub fn new(entries: Vec<Entry>) -> (r: SelectionList)
        ensures
            r@ == (ListModel { entries: entries_view(entries@), cursor: 0 }),
            r@.wf(),
    {
        SelectionList { entries, cursor: 0 }
    }

    /// Moves the cursor one entry down, wrapping past the last entry to the
    /// first.
    pub fn move_next(&mut self)
        requires
            old(self)@.wf(),
        ensures
            final(self)@.entries == old(self)@.entries,
            final(self)@.cursor == cursor_next(old(self)@.entries.len() as int, old(self)@.cursor),
            final(self)@.wf(),
    {
        let len = self.entries.len();
        if len == 0 {
            self.cursor = 0;
        } else if self.cursor + 1 == len {
            self.cursor = 0;
        } else {
            self.cursor = self.cursor + 1;
        }
    }

    /// Moves the cursor one entry up, wrapping past the first entry to the
    /// last.
    pub fn move_prev(&mut self)
        requires
            old(self)@.wf(),
        ensures
            final(self)@.entries == old(self)@.entries,
            final(self)@.cursor == cursor_prev(old(self)@.entries.len() as int, old(self)@.cursor),
            final(self)@.wf(),
    {
        let len = self.entries.len();
        if len == 0 {
            self.cursor = 0;
        } else if self.cursor == 0 {
            self.cursor = len - 1;
        } else {
            self.cursor = self.cursor - 1;
        }
    }

    /// Flips the inclusion flag of the current entry; with no entries,
    /// nothing changes.
    pub fn toggle_current(&mut self)
        requires
            old(self)@.wf(),
        ensures
            old(self)@.entries.len() == 0 ==> final(self)@ == old(self)@,
            old(self)@.entries.len() > 0 ==> final(self)@ == (ListModel {
                entries: toggle_at(old(self)@.entries, old(self)@.cursor),
                cursor: old(self)@.cursor,
            }),
            final(self)@.wf(),
    {
        if self.entries.len() > 0 {
            let i = self.cursor;
            self.entries[i].included = !self.entries[i].included;
            proof {
                assert(self@.entries =~= toggle_at(old(self)@.entries, old(self)@.cursor));
                assert(self@ =~= (ListModel {
                    entries: toggle_at(old(self)@.entries, old(self)@.cursor),
                    cursor: old(self)@.cursor,
                }));
            }
        }
    }

    /// Reacts to one key as [`select_step`] says, updating the list in place
    /// and reporting whether it stays active, was confirmed or was aborted.
    pub fn step(&mut self, key: Key) -> (r: SelectOutcome)
        requires
            old(self)@.wf(),
        ensures
            (final(self)@, r) == select_step(old(self)@, key),
            final(self)@.wf(),
    {
        match key {
            Key::Down => {
                self.move_next();
                SelectOutcome::Pending
            },
            Key::Char('j') => {
                self.move_next();
                SelectOutcome::Pending
            },
            Key::Up => {
                self.move_prev();
                SelectOutcome::Pending
            },
            Key::Char('k') => {
                self.move_prev();
                SelectOutcome::Pending
            },
            Key::Char(' ') => {
                self.toggle_current();
                proof {
                    assert(self@ =~= select_step(old(self)@, key).0);
                }
                SelectOutcome::Pending
            },
            Key::Char('\n') => SelectOutcome::Confirmed,
            Key::Ctrl('c') => SelectOutcome::Aborted,
            _ => SelectOutcome::Pending,
        }
    }
}

/// Toggling an entry twice restores the list: inclusion is purely a flag, so
/// the original flags, membership and order are always recoverable.
pub proof fn lemma_toggle_twice(s: Seq<EntryModel>, i: int)
    requires
        0 <= i < s.len(),
    ensures
        toggle_at(toggle_at(s, i), i) == s,
{
    assert(toggle_at(toggle_at(s, i), i) =~= s);
}

/// Toggling never removes an entry, reorders the list or touches any other
/// entry.
pub proof fn lemma_toggle_preserves_listing(s: Seq<EntryModel>, i: int)
    requires
        0 <= i < s.len(),
    ensures
        toggle_at(s, i).len() == s.len(),
        forall|j: int| 0 <= j < s.len() ==> toggle_at(s, i)[j].path == s[j].path,
        forall|j: int| 0 <= j < s.len() && j != i ==> toggle_at(s, i)[j] == s[j],
        toggle_at(s, i)[i].included == !s[i].included,
{
}

/// Navigating past the last entry wraps to the first, and past the first
/// wraps to the last.
pub proof fn lemma_navigation_wraps(l: ListModel)
    requires
        l.wf(),
        l.entries.len() > 0,
    ensures
        l.cursor == l.entries.len() - 1 ==> select_step(l, Key::Down).0.cursor == 0,
        l.cursor == 0 ==> select_step(l, Key::Up).0.cursor == l.entries.len() - 1,
{
}

} // verus!
