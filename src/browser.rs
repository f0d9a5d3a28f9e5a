use vstd::prelude::*;
use vstd::string::*;
use crate::paths::{parent_of, path_parent};
use crate::preview::{entry_preview, preview_of_entry, EntryContent};

verus! {

/// The browser's state: the directory shown, its entries in the order in which
/// the listing gave them, the index of the selected entry and the preview text.
pub struct App {
    pub current_path: String,
    pub entries: Vec<String>,
    pub selected: usize,
    pub preview: String,
}

/// One step of the selection.
pub enum Move {
    Up,
    Down,
}

/// Where the selection lands after one step from `selected` in a list of `len` entries.
pub open spec fn moved(selected: int, len: int, m: Move) -> int {
    match m {
        Move::Up => if selected > 0 { selected - 1 } else { selected },
        Move::Down => if selected + 1 < len { selected + 1 } else { selected },
    }
}

/// Where the selection lands after the steps of `moves`, taken in order.
pub open spec fn moved_all(selected: int, len: int, moves: Seq<Move>) -> int
    decreases moves.len(),
{
    if moves.len() == 0 {
        selected
    } else {
        moved(moved_all(selected, len, moves.drop_last()), len, moves.last())
    }
}

/// Any run of moves over a non-empty list keeps the selection inside the list.
pub proof fn lemma_moves_stay_in_range(selected: int, len: int, moves: Seq<Move>)
    requires
        0 <= selected < len,
    ensures
        0 <= moved_all(selected, len, moves) < len,
    decreases moves.len(),
{
    if moves.len() > 0 {
        lemma_moves_stay_in_range(selected, len, moves.drop_last());
    }
}

/// A move up from the first entry and a move down from the last one leave the
/// selection where it is.
pub proof fn lemma_moves_saturate(len: int)
    requires
        len > 0,
    ensures
        moved(0, len, Move::Up) == 0,
        moved(len - 1, len, Move::Down) == len - 1,
{
}

impl App {
    /// The selection points into the entries, or rests at 0 when there are none.
    pub open spec fn wf(&self) -> bool {
        self.selected < self.entries.len() || self.selected == 0
    }

    /// The state for a directory whose listing is `entries`: the first entry
    /// selected and no preview yet.
    pub fn new(current_path: String, entries: Vec<String>) -> (r: App)
        ensures
            r.current_path@ == current_path@,
            r.entries@ == entries@,
            r.selected == 0,
            r.preview@ == Seq::<char>::empty(),
            r.wf(),
    {
        App { current_path, entries, selected: 0, preview: String::new() }
    }

    /// Moves the selection one entry up; stays on the first entry.
    pub fn move_up(&mut self)
        ensures
            final(self).selected == moved(old(self).selected as int, old(self).entries.len() as int, Move::Up),
            final(self).current_path == old(self).current_path,
            final(self).entries == old(self).entries,
            final(self).preview == old(self).preview,
            old(self).wf() ==> final(self).wf(),
    {
        if self.selected > 0 {
            self.selected = self.selected - 1;
        }
    }

    /// Moves the selection one entry down; stays on the last entry, and does
    /// nothing when there are no entries.
    pub fn move_down(&mut self)
        ensures
            final(self).selected == moved(old(self).selected as int, old(self).entries.len() as int, Move::Down),
            final(self).current_path == old(self).current_path,
            final(self).entries == old(self).entries,
            final(self).preview == old(self).preview,
            old(self).wf() ==> final(self).wf(),
    {
        if self.entries.len() > 0 && self.selected < self.entries.len() - 1 {
            self.selected = self.selected + 1;
        }
    }

    /// The entry under the selection, if the selection points at one.
    pub fn selected_entry(&self) -> (r: Option<&String>)
        ensures
            self.selected < self.entries.len() ==> r == Some(&self.entries[self.selected as int]),
            self.selected >= self.entries.len() ==> r is None,
    {
        if self.selected < self.entries.len() {
            Some(&self.entries[self.selected])
        } else {
            None
        }
    }

    /// The directory that entering would move to: the selected entry, where
    /// there is one and it is a directory. Otherwise entering leaves the state
    /// as it is.
    pub fn enter_target(&self, selected_is_dir: bool) -> (r: Option<String>)
        ensures
            r is Some <==> (self.selected < self.entries.len() && selected_is_dir),
            r matches Some(p) ==> p@ == self.entries[self.selected as int]@,
    {
        if self.selected < self.entries.len() && selected_is_dir {
            Some(self.entries[self.selected].clone())
        } else {
            None
        }
    }

    /// The directory that going up would move to: the parent of the current
    /// directory. At the root there is none, and going up leaves the state as
    /// it is.
    pub fn parent_target(&self) -> (r: Option<String>)
        ensures
            match r {
                Some(p) => parent_of(self.current_path@) == Some(p@),
                None => parent_of(self.current_path@) is None,
            },
            self.current_path@ == seq!['/'] ==> r is None,
    {
        path_parent(&self.current_path)
    }

    /// Moves into the directory `path`, whose fresh listing is `entries`: the
    /// first entry is selected. The preview is left for the next update.
    pub fn change_directory(&mut self, path: String, entries: Vec<String>)
        ensures
            final(self).current_path@ == path@,
            final(self).entries@ == entries@,
            final(self).selected == 0,
            final(self).preview == old(self).preview,
            final(self).wf(),
    {
        self.current_path = path;
        self.entries = entries;
        self.selected = 0;
    }

    /// Recomputes the preview from what the selected entry holds; with no
    /// entry selected the preview is empty.
    pub fn update_preview(&mut self, content: &EntryContent)
        ensures
            final(self).preview@ == if old(self).selected < old(self).entries.len() {
                preview_of_entry(*content)
            } else {
                Seq::empty()
            },
            final(self).current_path == old(self).current_path,
            final(self).entries == old(self).entries,
            final(self).selected == old(self).selected,
    {
        if self.selected < self.entries.len() {
            self.preview = entry_preview(content);
        } else {
            self.preview = String::new();
        }
    }

    /// The line that shows an entry in the list: its name, after a `/` where
    /// it is a directory.
    pub fn entry_label(name: &str, is_dir: bool) -> (r: String)
        ensures
            r@ == if is_dir {
                seq!['/'] + name@
            } else {
                name@
            },
    {
        if is_dir {
            let slash = String::from_str("/");
            proof {
                reveal_strlit("/");
            }
            slash.concat(name)
        } else {
            String::from_str(name)
        }
    }
}

} // verus!
