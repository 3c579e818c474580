//! The directory navigator: the current directory, its listing and the focus.
//!
//! The navigator never reads a directory itself. Whoever drives it reads the
//! directory that an operation is about to show and hands the reading in: the
//! children by name, in the order in which they were read. The navigator makes
//! the listing of it. A failed reading leaves the navigator as it was.
//!
//! Two things hold of every navigator, see [`NavigatorView::is_valid`]. The
//! focus, the index of the highlighted entry, is below the number of entries,
//! and 0 while there are none. And every entry is the entry of a child of the
//! current directory.

use vstd::prelude::*;
use vstd::string::*;
use crate::path::{join, joined, parent, parent_of, text_of};

verus! {

/// Why a directory could not be read.
#[derive(Clone, Copy, Debug, PartialEq, Eq, Structural)]
pub enum ListError {
    /// The directory may not be read.
    PermissionDenied,
    /// The path does not name a directory.
    NotADirectory,
    /// The directory is no longer there.
    Vanished,
    /// Any other failure.
    Other,
}

impl ListError {
    /// The notification for the failure.
    pub open spec fn message_of(self) -> Seq<char> {
        match self {
            ListError::PermissionDenied => "Directory may not be read"@,
            ListError::NotADirectory => "Not a directory"@,
            ListError::Vanished => "Directory is no longer there"@,
            ListError::Other => "Couldn't read directory"@,
        }
    }

    /// The notification for the failure.
    pub fn message(self) -> (text: String)
        ensures
            text@ == self.message_of(),
    {
        match self {
            ListError::PermissionDenied => String::from_str("Directory may not be read"),
            ListError::NotADirectory => String::from_str("Not a directory"),
            ListError::Vanished => String::from_str("Directory is no longer there"),
            ListError::Other => String::from_str("Couldn't read directory"),
        }
    }
}

/// One child of a directory as it is read: its name and what it is.
#[derive(Debug, PartialEq, Eq)]
pub struct Child {
    /// The name of the child, one component.
    pub name: String,
    /// Whether the child is a directory.
    pub is_directory: bool,
}

/// A [`Child`] as plain values.
pub struct ChildView {
    pub name: Seq<char>,
    pub is_directory: bool,
}

impl View for Child {
    type V = ChildView;

    open spec fn view(&self) -> ChildView {
        ChildView { name: self.name@, is_directory: self.is_directory }
    }
}

/// The children of a reading as plain values.
pub open spec fn child_views(children: Seq<Child>) -> Seq<ChildView> {
    Seq::new(children.len(), |i: int| children[i]@)
}

/// A reading as plain values.
pub open spec fn reading_view(reading: Result<Vec<Child>, ListError>) -> Result<
    Seq<ChildView>,
    ListError,
> {
    match reading {
        Ok(children) => Ok(child_views(children@)),
        Err(e) => Err(e),
    }
}

/// One entry of a listing.
#[derive(Debug, PartialEq, Eq)]
pub struct Entry {
    /// The name of the child.
    pub name: String,
    /// The name shown in the short form of the listing.
    pub display_name: String,
    /// The absolute path of the child.
    pub absolute_path: String,
    /// Whether the child is a directory.
    pub is_directory: bool,
}

/// An [`Entry`] as plain values.
pub struct EntryView {
    pub name: Seq<char>,
    pub display_name: Seq<char>,
    pub absolute_path: Seq<char>,
    pub is_directory: bool,
}

impl View for Entry {
    type V = EntryView;

    open spec fn view(&self) -> EntryView {
        EntryView {
            name: self.name@,
            display_name: self.display_name@,
            absolute_path: self.absolute_path@,
            is_directory: self.is_directory,
        }
    }
}

/// What stands before a child's name in the short form of the listing.
pub open spec fn short_prefix() -> Seq<char> {
    seq!['.', '.', '/']
}

/// The entry for the child `name` of the directory `dir`.
pub open spec fn child_of(dir: Seq<char>, name: Seq<char>, is_directory: bool) -> EntryView {
    EntryView {
        name,
        display_name: short_prefix() + name,
        absolute_path: joined(dir, name),
        is_directory,
    }
}

/// The entries of a listing as plain values.
pub open spec fn entry_views(entries: Seq<Entry>) -> Seq<EntryView> {
    Seq::new(entries.len(), |i: int| entries[i]@)
}

/// The listing of the directory `dir` whose children were read as `children`:
/// the entry of each child, in the order in which they were read.
pub open spec fn listing_of(dir: Seq<char>, children: Seq<ChildView>) -> Seq<EntryView> {
    Seq::new(
        children.len(),
        |i: int| child_of(dir, children[i].name, children[i].is_directory),
    )
}

impl Clone for Entry {
    fn clone(&self) -> (copy: Entry)
        ensures
            copy == *self,
    {
        Entry {
            name: self.name.clone(),
            display_name: self.display_name.clone(),
            absolute_path: self.absolute_path.clone(),
            is_directory: self.is_directory,
        }
    }
}

impl Entry {
    /// Describes the child `name` of the directory `dir`: its path is the two
    /// joined, and its short form is `../` before the name.
    pub fn child(dir: &str, name: &str, is_directory: bool) -> (entry: Entry)
        ensures
            entry@ == child_of(dir@, name@, is_directory),
    {
        proof {
            reveal_strlit("../");
        }
        let mut display_name = String::from_str("../");
        display_name.append(name);
        assert(display_name@ =~= short_prefix() + name@);
        Entry {
            name: String::from_str(name),
            display_name,
            absolute_path: join(dir, name),
            is_directory,
        }
    }
}

/// Makes the listing of the directory `dir` from its children as they were
/// read: one entry for each child, in the same order. The order is that of
/// the reading, which need not be sorted.
pub fn list(dir: &str, children: &Vec<Child>) -> (entries: Vec<Entry>)
    ensures
        entry_views(entries@) == listing_of(dir@, child_views(children@)),
{
    let mut entries: Vec<Entry> = Vec::new();
    let mut i: usize = 0;
    while i < children.len()
        invariant
            i <= children.len(),
            entries@.len() == i,
            forall|j: int|
                0 <= j < i ==> (#[trigger] entries@[j])@ == child_of(
                    dir@,
                    children@[j].name@,
                    children@[j].is_directory,
                ),
        decreases children.len() - i,
    {
        let child = &children[i];
        entries.push(Entry::child(dir, child.name.as_str(), child.is_directory));
        i += 1;
    }
    assert(entry_views(entries@) =~= listing_of(dir@, child_views(children@)));
    entries
}

/// What selecting an entry leads to.
#[derive(Debug, PartialEq, Eq)]
pub enum Action {
    /// The entry was a directory, and the navigator now shows it.
    EnterDirectory,
    /// The entry is a file; its absolute path is handed on.
    SelectFile(String),
}

/// Whether `focus` is valid for `len` entries.
pub open spec fn focus_in_bounds(focus: nat, len: nat) -> bool {
    if len == 0 {
        focus == 0
    } else {
        focus < len
    }
}

/// The nearest valid focus to `focus` among `len` entries.
pub open spec fn clamped_focus(focus: int, len: nat) -> nat {
    if len == 0 || focus < 0 {
        0
    } else if focus >= len {
        (len - 1) as nat
    } else {
        focus as nat
    }
}

/// A [`NavigatorState`] as plain values.
pub struct NavigatorView {
    pub current_path: Seq<char>,
    pub entries: Seq<EntryView>,
    pub focus_index: nat,
}

impl NavigatorView {
    /// What holds of every navigator: the focus is valid for the entries, and
    /// each entry is the entry of a child of the current directory.
    pub open spec fn is_valid(self) -> bool {
        &&& focus_in_bounds(self.focus_index, self.entries.len())
        &&& forall|i: int|
            0 <= i < self.entries.len() ==> (#[trigger] self.entries[i]) == child_of(
                self.current_path,
                self.entries[i].name,
                self.entries[i].is_directory,
            )
    }
}

/// The state right after the directory at `path` was entered: its path, the
/// listing of its children, and the focus on the first entry.
pub open spec fn entered(path: Seq<char>, children: Seq<ChildView>) -> NavigatorView {
    NavigatorView { current_path: path, entries: listing_of(path, children), focus_index: 0 }
}

/// The state after a new reading of the current directory: the listing of
/// the children that were read, and the focus at the nearest valid index.
pub open spec fn refreshed(nav: NavigatorView, children: Seq<ChildView>) -> NavigatorView {
    NavigatorView {
        current_path: nav.current_path,
        entries: listing_of(nav.current_path, children),
        focus_index: clamped_focus(nav.focus_index as int, children.len()),
    }
}

/// The state with the focus moved by `delta` entries, as far as it goes.
pub open spec fn focus_moved(nav: NavigatorView, delta: int) -> NavigatorView {
    NavigatorView {
        focus_index: clamped_focus(nav.focus_index + delta, nav.entries.len()),
        ..nav
    }
}

/// Clamping always gives a valid focus: an index below the number of entries,
/// and 0 where there are none. A valid focus is left where it is.
pub proof fn lemma_clamped_focus_in_bounds(focus: int, len: nat)
    ensures
        focus_in_bounds(clamped_focus(focus, len), len),
        focus_in_bounds(0, len),
        0 <= focus && focus_in_bounds(focus as nat, len) ==> clamped_focus(focus, len) == focus,
{
}

/// Every operation keeps a navigator valid: entering a directory gives a
/// valid state, and from a valid state a new reading and a move of the focus
/// lead to valid states.
pub proof fn lemma_operations_keep_valid(
    nav: NavigatorView,
    path: Seq<char>,
    children: Seq<ChildView>,
    delta: int,
)
    requires
        nav.is_valid(),
    ensures
        entered(path, children).is_valid(),
        refreshed(nav, children).is_valid(),
        focus_moved(nav, delta).is_valid(),
{
}

/// The current directory, its listing as of the last reading, and the focus.
#[derive(Debug)]
pub struct NavigatorState {
    current_path: String,
    entries: Vec<Entry>,
    focus_index: usize,
}

impl View for NavigatorState {
    type V = NavigatorView;

    closed spec fn view(&self) -> NavigatorView {
        NavigatorView {
            current_path: self.current_path@,
            entries: entry_views(self.entries@),
            focus_index: self.focus_index as nat,
        }
    }
}

impl NavigatorState {
    /// What holds of every navigator.
    #[verifier::type_invariant]
    pub open spec fn valid(self) -> bool {
        self@.is_valid()
    }

    /// Starts in `current_path`, of which `reading` is the reading. After a
    /// failed reading there are no entries.
    pub fn enter(current_path: String, reading: Result<Vec<Child>, ListError>) -> (nav:
        NavigatorState)
        ensures
            nav@ == entered(
                current_path@,
                match reading {
                    Ok(children) => child_views(children@),
                    Err(_) => Seq::empty(),
                },
            ),
            nav@.is_valid(),
    {
        let entries = match &reading {
            Ok(children) => list(current_path.as_str(), children),
            Err(_) => Vec::new(),
        };
        let nav = NavigatorState { current_path, entries, focus_index: 0 };
        assert(nav@.entries =~= listing_of(
            current_path@,
            match reading {
                Ok(children) => child_views(children@),
                Err(_) => Seq::empty(),
            },
        ));
        nav
    }

    /// The current directory.
    pub fn current_path(&self) -> (path: &str)
        ensures
            path@ == self@.current_path,
    {
        self.current_path.as_str()
    }

    /// The entries as of the last reading.
    pub fn entries(&self) -> (entries: &Vec<Entry>)
        ensures
            entry_views(entries@) == self@.entries,
            self@.is_valid(),
    {
        proof {
            use_type_invariant(self);
        }
        &self.entries
    }

    /// The index of the highlighted entry.
    pub fn focus_index(&self) -> (focus: usize)
        ensures
            focus == self@.focus_index,
            self@.is_valid(),
    {
        proof {
            use_type_invariant(self);
        }
        self.focus_index
    }

    /// The highlighted entry, if there is any entry.
    pub fn focused(&self) -> (entry: Option<&Entry>)
        ensures
            match entry {
                Some(e) => self@.entries.len() > 0 && e@ == self@.entries[self@.focus_index as int],
                None => self@.entries.len() == 0,
            },
            self@.is_valid(),
    {
        proof {
            use_type_invariant(self);
        }
        if self.entries.len() == 0 {
            None
        } else {
            Some(&self.entries[self.focus_index])
        }
    }

    /// Takes in a new reading of the current directory. A successful one
    /// replaces the entries, and the focus moves to the nearest valid index; a
    /// failed one changes nothing and is handed back.
    pub fn refresh(&mut self, reading: Result<Vec<Child>, ListError>) -> (outcome: Result<
        (),
        ListError,
    >)
        ensures
            match reading {
                Ok(children) => outcome is Ok && final(self)@ == refreshed(
                    old(self)@,
                    child_views(children@),
                ),
                Err(e) => outcome == Err::<(), ListError>(e) && final(self)@ == old(self)@,
            },
            final(self)@.is_valid(),
    {
        proof {
            use_type_invariant(&*self);
        }
        match reading {
            Ok(children) => {
                let entries = list(self.current_path.as_str(), &children);
                if entries.len() == 0 {
                    self.focus_index = 0;
                } else if self.focus_index >= entries.len() {
                    self.focus_index = entries.len() - 1;
                }
                self.entries = entries;
                Ok(())
            },
            Err(e) => Err(e),
        }
    }

    /// Moves the focus by `delta` entries, stopping at the first and at the
    /// last one. Without entries the focus stays 0.
    pub fn move_focus(&mut self, delta: i32)
        ensures
            final(self)@ == focus_moved(old(self)@, delta as int),
            final(self)@.is_valid(),
    {
        proof {
            use_type_invariant(&*self);
        }
        let len = self.entries.len();
        if len == 0 {
            return ;
        }
        if delta >= 0 {
            let room: usize = len - 1 - self.focus_index;
            if room > i32::MAX as usize || delta as usize <= room {
                self.focus_index = self.focus_index + delta as usize;
            } else {
                self.focus_index = len - 1;
            }
        } else {
            let back: i64 = -(delta as i64);
            if self.focus_index > u32::MAX as usize || back as usize <= self.focus_index {
                self.focus_index = self.focus_index - back as usize;
            } else {
                self.focus_index = 0;
            }
        }
    }

    /// The directory that [`NavigatorState::ascend`] would move to: the parent
    /// of the current one, if it has one.
    pub fn ascend_target(&self) -> (target: Option<String>)
        ensures
            text_of(target) == parent_of(self@.current_path),
    {
        parent(self.current_path.as_str())
    }

    /// Moves to the parent directory, of which `reading` is the reading.
    ///
    /// At a root there is no parent: nothing changes and the answer is
    /// `Ok(false)`, whatever the reading. Otherwise a successful reading makes
    /// the parent the current directory, with the focus on its first entry, and
    /// the answer is `Ok(true)`; a failed one changes nothing and is handed
    /// back.
    pub fn ascend(&mut self, reading: Result<Vec<Child>, ListError>) -> (outcome: Result<
        bool,
        ListError,
    >)
        ensures
            match parent_of(old(self)@.current_path) {
                None => outcome == Ok::<bool, ListError>(false) && final(self)@ == old(self)@,
                Some(dir) => match reading {
                    Ok(children) => outcome == Ok::<bool, ListError>(true) && final(self)@
                        == entered(dir, child_views(children@)),
                    Err(e) => outcome == Err::<bool, ListError>(e) && final(self)@ == old(self)@,
                },
            },
            final(self)@.is_valid(),
    {
        proof {
            use_type_invariant(&*self);
        }
        match parent(self.current_path.as_str()) {
            None => Ok(false),
            Some(dir) => match reading {
                Ok(children) => {
                    let entries = list(dir.as_str(), &children);
                    *self = NavigatorState { current_path: dir, entries, focus_index: 0 };
                    Ok(true)
                },
                Err(e) => Err(e),
            },
        }
    }

    /// Acts on `selection`, the entry that was chosen, of whose path `reading`
    /// is the reading.
    ///
    /// A file is handed on by its path and nothing changes, whatever the
    /// reading. For a directory a successful reading makes it the current
    /// directory, with the focus on its first entry; a failed one changes
    /// nothing and is handed back.
    pub fn descend_into(
        &mut self,
        selection: &Entry,
        reading: Result<Vec<Child>, ListError>,
    ) -> (outcome: Result<Action, ListError>)
        ensures
            !selection.is_directory ==> final(self)@ == old(self)@ && (outcome matches Ok(
                Action::SelectFile(path),
            ) && path@ == selection@.absolute_path),
            selection.is_directory ==> match reading {
                Ok(children) => outcome == Ok::<Action, ListError>(Action::EnterDirectory)
                    && final(self)@ == entered(selection@.absolute_path, child_views(children@)),
                Err(e) => outcome == Err::<Action, ListError>(e) && final(self)@ == old(self)@,
            },
            final(self)@.is_valid(),
    {
        proof {
            use_type_invariant(&*self);
        }
        if !selection.is_directory {
            return Ok(Action::SelectFile(selection.absolute_path.clone()));
        }
        match reading {
            Ok(children) => {
                let current_path = selection.absolute_path.clone();
                let entries = list(current_path.as_str(), &children);
                *self = NavigatorState { current_path, entries, focus_index: 0 };
                Ok(Action::EnterDirectory)
            },
            Err(e) => Err(e),
        }
    }
}

} // verus!
