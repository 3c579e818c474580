//! The session: what each key and each outcome of outside work leads to.
//!
//! The session holds the navigator, the menu, the display mode and the
//! notification. It performs no outside work. A key may call for some: the
//! answer to [`Session::on_key`] is an [`Effect`] for the caller to carry out,
//! and the outcome comes back through [`Session::on_listed`],
//! [`Session::on_loaded`] or [`Session::on_stored`]. What each of them does is
//! written down once, as a function on plain values: [`after_key`],
//! [`after_listed`], [`after_loaded`] and [`after_stored`].

use vstd::prelude::*;
use vstd::string::*;
use crate::dispatcher::{
    applied,
    apply,
    rewrite,
    rewritten,
    Cipher,
    IoError,
    Rewrite,
    Step,
    StepView,
};
use crate::layout::{list_rows, listed, row_views, texts, Row, RowView, Style};
use crate::menu::{Menu, MenuAction};
use crate::navigator::{
    entered,
    entry_views,
    focus_moved,
    listing_of,
    reading_view,
    refreshed,
    Action,
    Child,
    ChildView,
    Entry,
    EntryView,
    ListError,
    NavigatorState,
    NavigatorView,
};
use crate::path::{is_absolute, is_component, lemma_join_then_split, parent_of};

verus! {

/// A key, by what it is bound to.
#[derive(Clone, Copy, Debug, PartialEq, Eq, Structural)]
pub enum Key {
    /// Moves the menu highlight up.
    Up,
    /// Moves the menu highlight down.
    Down,
    /// Moves the method of a cipher row back.
    Left,
    /// Moves the method of a cipher row on.
    Right,
    /// Selects the focused entry.
    Enter,
    /// Moves to the parent directory.
    Ascend,
    /// Moves the focus up the listing.
    FocusUp,
    /// Moves the focus down the listing.
    FocusDown,
    /// Ends the session.
    Quit,
    /// Any key that is bound to nothing.
    Other,
}

impl Key {
    /// The binding of a character key, by its code: line feed selects, `d`
    /// ascends, `w` and `s` move the focus, `q` quits. Every other code is
    /// bound to nothing.
    pub open spec fn of_code(code: i32) -> Key {
        if code == 10 {
            Key::Enter
        } else if code == 100 {
            Key::Ascend
        } else if code == 119 {
            Key::FocusUp
        } else if code == 115 {
            Key::FocusDown
        } else if code == 113 {
            Key::Quit
        } else {
            Key::Other
        }
    }

    /// The binding of a character key, by its code.
    pub fn from_code(code: i32) -> (key: Key)
        ensures
            key == Key::of_code(code),
    {
        if code == 10 {
            Key::Enter
        } else if code == 100 {
            Key::Ascend
        } else if code == 119 {
            Key::FocusUp
        } else if code == 115 {
            Key::FocusDown
        } else if code == 113 {
            Key::Quit
        } else {
            Key::Other
        }
    }
}

/// The outside work that the session waits for.
#[derive(Debug, PartialEq, Eq)]
pub enum Pending {
    /// None.
    Nothing,
    /// The reading of the parent directory.
    Ascent,
    /// The reading of the directory that was selected.
    Descent(Entry),
    /// The content of the file that a cipher action was chosen for.
    Load { cipher: Cipher, path: String, shift: u8 },
    /// The writing and renaming of that file.
    Store,
}

/// A [`Pending`] as plain values.
pub enum PendingView {
    Nothing,
    Ascent,
    Descent(EntryView),
    Load { cipher: Cipher, path: Seq<char>, shift: u8 },
    Store,
}

impl View for Pending {
    type V = PendingView;

    open spec fn view(&self) -> PendingView {
        match self {
            Pending::Nothing => PendingView::Nothing,
            Pending::Ascent => PendingView::Ascent,
            Pending::Descent(entry) => PendingView::Descent(entry@),
            Pending::Load { cipher, path, shift } => PendingView::Load {
                cipher: *cipher,
                path: path@,
                shift: *shift,
            },
            Pending::Store => PendingView::Store,
        }
    }
}

/// What the caller is to do after an event.
#[derive(Debug, PartialEq, Eq)]
pub enum Effect {
    /// Nothing.
    Idle,
    /// End the loop.
    Quit,
    /// Read the directory at the path and hand the outcome to
    /// [`Session::on_listed`].
    List(String),
    /// Open the file at the path with the system's handler for it.
    Open(String),
    /// Read the file at the path and hand the outcome to
    /// [`Session::on_loaded`].
    Load(String),
    /// Write the content to the file at `path`, then rename the file to
    /// `renamed_path`, and hand the outcome to [`Session::on_stored`].
    Store { path: String, content: Vec<u8>, renamed_path: String },
}

/// An [`Effect`] as plain values.
pub enum EffectView {
    Idle,
    Quit,
    List(Seq<char>),
    Open(Seq<char>),
    Load(Seq<char>),
    Store { path: Seq<char>, content: Seq<u8>, renamed_path: Seq<char> },
}

impl View for Effect {
    type V = EffectView;

    open spec fn view(&self) -> EffectView {
        match self {
            Effect::Idle => EffectView::Idle,
            Effect::Quit => EffectView::Quit,
            Effect::List(path) => EffectView::List(path@),
            Effect::Open(path) => EffectView::Open(path@),
            Effect::Load(path) => EffectView::Load(path@),
            Effect::Store { path, content, renamed_path } => EffectView::Store {
                path: path@,
                content: content@,
                renamed_path: renamed_path@,
            },
        }
    }
}

/// A [`Session`] as plain values.
pub struct SessionView {
    pub navigator: NavigatorView,
    pub menu: Menu,
    pub short_names: bool,
    pub notification: Seq<char>,
    pub pending: PendingView,
}

impl SessionView {
    /// What holds of every session: its navigator is valid.
    pub open spec fn is_valid(self) -> bool {
        self.navigator.is_valid()
    }
}

/// The notification after an attempt to ascend from a root.
pub open spec fn notice_at_root() -> Seq<char> {
    "at lowest directory"@
}

/// The notification after a move to the parent directory.
pub open spec fn notice_ascended() -> Seq<char> {
    "Moved directory down"@
}

/// The notification after a move into a directory of the listing.
pub open spec fn notice_descended() -> Seq<char> {
    "Moved directory up"@
}

/// The row in which the listing and the menu start.
pub const LIST_TOP: i32 = 2;

/// The session at its start in `path`: the first reading of the directory
/// taken in, the menu at its start, short names shown, and a notification only
/// if the reading failed.
pub open spec fn started(path: Seq<char>, reading: Result<Seq<ChildView>, ListError>)
    -> SessionView {
    SessionView {
        navigator: entered(
            path,
            match reading {
                Ok(children) => children,
                Err(_) => Seq::empty(),
            },
        ),
        menu: Menu::initial(),
        short_names: true,
        notification: match reading {
            Ok(_) => Seq::empty(),
            Err(e) => e.message_of(),
        },
        pending: PendingView::Nothing,
    }
}

/// The session after a new reading of the current directory: a successful
/// one replaces the entries and clamps the focus; a failed one leaves them and
/// is shown as the notification.
pub open spec fn after_refresh(s: SessionView, reading: Result<Seq<ChildView>, ListError>)
    -> SessionView {
    match reading {
        Ok(children) => SessionView { navigator: refreshed(s.navigator, children), ..s },
        Err(e) => SessionView { notification: e.message_of(), ..s },
    }
}

/// What selecting the file at `path` leads to: the highlighted action is
/// applied to it with the shift of the highlighted row. Reading hands the file
/// to the system's handler, a cipher action first calls for the file's
/// content, and the display switch flips the display mode.
pub open spec fn after_file_selected(s: SessionView, path: Seq<char>) -> (SessionView, EffectView) {
    let (notification, step) = applied(s.menu.action, path, s.menu.selected_shift_of());
    let s = SessionView { notification, ..s };
    match step {
        StepView::Open(path) => (s, EffectView::Open(path)),
        StepView::Load { cipher, path, shift } => (
            SessionView { pending: PendingView::Load { cipher, path, shift }, ..s },
            EffectView::Load(path),
        ),
        StepView::ToggleDisplay => (
            SessionView { short_names: !s.short_names, ..s },
            EffectView::Idle,
        ),
    }
}

/// What the select key leads to. With the display switch highlighted it flips
/// the display mode, whatever is focused. Otherwise it acts on the focused
/// entry: a directory is to be read, so that it can be entered; a file goes to
/// the highlighted action. Without entries nothing happens.
pub open spec fn after_select(s: SessionView) -> (SessionView, EffectView) {
    if s.menu.action == MenuAction::ToggleDisplay {
        after_file_selected(s, Seq::empty())
    } else if s.navigator.entries.len() == 0 {
        (s, EffectView::Idle)
    } else {
        let entry = s.navigator.entries[s.navigator.focus_index as int];
        if entry.is_directory {
            (
                SessionView { pending: PendingView::Descent(entry), ..s },
                EffectView::List(entry.absolute_path),
            )
        } else {
            after_file_selected(s, entry.absolute_path)
        }
    }
}

/// The session after a key, and what the caller is to do.
///
/// Every key first clears the notification and drops what was waited for.
/// Then the arrows move the menu, the focus keys move the focus, the ascend
/// key calls for the reading of the parent directory, or reports that there
/// is none, the select key acts on the focused entry, and the quit key ends the
/// loop. A key that is bound to nothing does no more.
pub open spec fn after_key(s: SessionView, key: Key) -> (SessionView, EffectView) {
    let s = SessionView { notification: Seq::empty(), pending: PendingView::Nothing, ..s };
    match key {
        Key::Up => (SessionView { menu: s.menu.moved_up(), ..s }, EffectView::Idle),
        Key::Down => (SessionView { menu: s.menu.moved_down(), ..s }, EffectView::Idle),
        Key::Left => (SessionView { menu: s.menu.moved_left(), ..s }, EffectView::Idle),
        Key::Right => (SessionView { menu: s.menu.moved_right(), ..s }, EffectView::Idle),
        Key::FocusUp => (
            SessionView { navigator: focus_moved(s.navigator, -1), ..s },
            EffectView::Idle,
        ),
        Key::FocusDown => (
            SessionView { navigator: focus_moved(s.navigator, 1), ..s },
            EffectView::Idle,
        ),
        Key::Ascend => match parent_of(s.navigator.current_path) {
            None => (SessionView { notification: notice_at_root(), ..s }, EffectView::Idle),
            Some(dir) => (
                SessionView { pending: PendingView::Ascent, ..s },
                EffectView::List(dir),
            ),
        },
        Key::Enter => after_select(s),
        Key::Quit => (s, EffectView::Quit),
        Key::Other => (s, EffectView::Idle),
    }
}

/// The session after a move to the directory `target` was tried with the
/// given reading of it. A successful reading makes that directory the current
/// one, with the focus on its first entry, and `notice` is shown. A failed one
/// leaves path, entries and focus as they were and is shown instead. Either
/// way, and also where there is no target, nothing is waited for any more.
pub open spec fn after_move(
    s: SessionView,
    target: Option<Seq<char>>,
    reading: Result<Seq<ChildView>, ListError>,
    notice: Seq<char>,
) -> SessionView {
    let s = SessionView { pending: PendingView::Nothing, ..s };
    match target {
        None => s,
        Some(dir) => match reading {
            Ok(children) => SessionView {
                navigator: entered(dir, children),
                notification: notice,
                ..s
            },
            Err(e) => SessionView { notification: e.message_of(), ..s },
        },
    }
}

/// The session after the reading of a directory that it called for: the move
/// that waited for it is made, to the parent of the current directory or into
/// the directory that was selected. A reading that was not called for changes
/// nothing.
pub open spec fn after_listed(s: SessionView, reading: Result<Seq<ChildView>, ListError>)
    -> SessionView {
    match s.pending {
        PendingView::Ascent => after_move(
            s,
            parent_of(s.navigator.current_path),
            reading,
            notice_ascended(),
        ),
        PendingView::Descent(entry) => after_move(
            s,
            if entry.is_directory {
                Some(entry.absolute_path)
            } else {
                None
            },
            reading,
            notice_descended(),
        ),
        _ => s,
    }
}

/// The session after the content of a file that it called for was read, and
/// what the caller is to do.
///
/// Content that was read goes through the cipher action that waited for it,
/// and the outcome is to be stored. Without content the failure is shown as
/// the notification and nothing is waited for any more. Content that was not
/// called for changes nothing.
pub open spec fn after_loaded(s: SessionView, content: Option<Seq<u8>>) -> (
    SessionView,
    EffectView,
) {
    match s.pending {
        PendingView::Load { cipher, path, shift } => match content {
            Some(bytes) => (
                SessionView { pending: PendingView::Store, ..s },
                EffectView::Store {
                    path,
                    content: rewritten(cipher, path, bytes, shift).content,
                    renamed_path: rewritten(cipher, path, bytes, shift).renamed_path,
                },
            ),
            None => (
                SessionView {
                    notification: IoError::Read.message_of(),
                    pending: PendingView::Nothing,
                    ..s
                },
                EffectView::Idle,
            ),
        },
        _ => (s, EffectView::Idle),
    }
}

/// The session after the storing that it called for: nothing is waited for
/// any more, and a failure is shown as the notification. An outcome that was
/// not called for changes nothing.
pub open spec fn after_stored(s: SessionView, outcome: Result<(), IoError>) -> SessionView {
    match s.pending {
        PendingView::Store => match outcome {
            Ok(_) => SessionView { pending: PendingView::Nothing, ..s },
            Err(failure) => SessionView {
                notification: failure.message_of(),
                pending: PendingView::Nothing,
                ..s
            },
        },
        _ => s,
    }
}

/// The column in which the menu starts on a display of `columns` columns: the
/// middle one.
pub open spec fn menu_column(columns: int) -> int {
    if columns <= 0 {
        0
    } else {
        columns / 2
    }
}

/// The texts of the listing: short names or full paths, by the display mode.
pub open spec fn shown_names(s: SessionView) -> Seq<Seq<char>> {
    Seq::new(
        s.navigator.entries.len(),
        |i: int|
            if s.short_names {
                s.navigator.entries[i].display_name
            } else {
                s.navigator.entries[i].absolute_path
            },
    )
}

/// The row that shows the notification: the first of the display.
pub open spec fn notification_row(s: SessionView) -> RowView {
    RowView { row: 0, col: 0, text: s.notification, style: Style::Regular }
}

/// What is drawn for a session on a display of `columns` columns: the
/// notification in the first row; from row [`LIST_TOP`] down the listing on
/// the left, the focused entry highlighted; and beside it, from the middle
/// column, the menu, the highlighted action highlighted.
pub open spec fn framed(s: SessionView, columns: int) -> Seq<RowView> {
    seq![notification_row(s)] + listed(
        shown_names(s),
        s.navigator.focus_index as int,
        LIST_TOP as int,
        0,
    ) + listed(s.menu.labels_of(), s.menu.action.row() as int, LIST_TOP as int, menu_column(columns))
}

/// Every event keeps the session valid: from a valid session each key, each
/// reading, each content and each outcome of a storing leads to a valid
/// session. So the focus is valid for the entries at every step, and every
/// entry lies in the current directory.
pub proof fn lemma_events_keep_valid(
    s: SessionView,
    key: Key,
    reading: Result<Seq<ChildView>, ListError>,
    content: Option<Seq<u8>>,
    outcome: Result<(), IoError>,
)
    requires
        s.is_valid(),
    ensures
        after_key(s, key).0.is_valid(),
        after_refresh(s, reading).is_valid(),
        after_listed(s, reading).is_valid(),
        after_loaded(s, content).0.is_valid(),
        after_stored(s, outcome).is_valid(),
{
}

/// At a root the ascend key moves nowhere: for a session whose current
/// directory has no parent, the key calls for no outside work, leaves path,
/// entries and focus as they are, and the notification says so.
pub proof fn lemma_ascend_at_root(s: SessionView)
    requires
        parent_of(s.navigator.current_path) is None,
    ensures
        after_key(s, Key::Ascend).1 == EffectView::Idle,
        after_key(s, Key::Ascend).0.navigator == s.navigator,
        after_key(s, Key::Ascend).0.notification == notice_at_root(),
        after_key(s, Key::Ascend).0.pending == PendingView::Nothing,
{
}

/// Selecting a directory enters it: with a directory focused and another
/// action than the display switch highlighted, the select key calls for the
/// reading of that directory, and once the reading is handed in the directory
/// is the current one, its entries are the listing of what was read, and the
/// focus is on the first of them.
pub proof fn lemma_select_enters_directory(s: SessionView, children: Seq<ChildView>)
    requires
        s.menu.action != MenuAction::ToggleDisplay,
        s.navigator.focus_index < s.navigator.entries.len(),
        s.navigator.entries[s.navigator.focus_index as int].is_directory,
    ensures
        ({
            let target = s.navigator.entries[s.navigator.focus_index as int].absolute_path;
            let inside = after_listed(after_key(s, Key::Enter).0, Ok(children));
            &&& after_key(s, Key::Enter).1 == EffectView::List(target)
            &&& inside.navigator.current_path == target
            &&& inside.navigator.entries == listing_of(target, children)
            &&& inside.navigator.focus_index == 0
            &&& inside.notification == notice_descended()
        }),
{
}

/// Ascending undoes descending: in a valid session in an absolute directory,
/// entering the focused directory and then pressing the ascend key calls for
/// the reading of the directory that was left, and once that is handed in the
/// session is back in it.
pub proof fn lemma_ascend_undoes_descend(
    s: SessionView,
    below: Seq<ChildView>,
    above: Seq<ChildView>,
)
    requires
        s.is_valid(),
        is_absolute(s.navigator.current_path),
        s.menu.action != MenuAction::ToggleDisplay,
        s.navigator.focus_index < s.navigator.entries.len(),
        s.navigator.entries[s.navigator.focus_index as int].is_directory,
        is_component(s.navigator.entries[s.navigator.focus_index as int].name),
    ensures
        ({
            let inside = after_listed(after_key(s, Key::Enter).0, Ok(below));
            let (asked, effect) = after_key(inside, Key::Ascend);
            &&& effect == EffectView::List(s.navigator.current_path)
            &&& after_listed(asked, Ok(above)).navigator == entered(s.navigator.current_path, above)
        }),
{
    let entry = s.navigator.entries[s.navigator.focus_index as int];
    lemma_join_then_split(s.navigator.current_path, entry.name);
}

/// A failed reading changes no place: whatever reading of a directory was
/// called for, when it fails the session keeps its path, its entries and its
/// focus, and shows the failure.
pub proof fn lemma_failed_reading_keeps_place(s: SessionView, error: ListError)
    ensures
        after_listed(s, Err(error)).navigator == s.navigator,
        after_refresh(s, Err(error)).navigator == s.navigator,
        after_refresh(s, Err(error)).notification == error.message_of(),
{
}

/// The content that is handed in, as plain values.
pub open spec fn content_view(content: Option<Vec<u8>>) -> Option<Seq<u8>> {
    match content {
        Some(bytes) => Some(bytes@),
        None => None,
    }
}

/// The state of the browser between two events.
#[derive(Debug)]
pub struct Session {
    navigator: NavigatorState,
    menu: Menu,
    short_names: bool,
    notification: String,
    pending: Pending,
}

impl View for Session {
    type V = SessionView;

    closed spec fn view(&self) -> SessionView {
        SessionView {
            navigator: self.navigator@,
            menu: self.menu,
            short_names: self.short_names,
            notification: self.notification@,
            pending: self.pending@,
        }
    }
}

impl Session {
    /// Starts a session in `current_path`, of which `reading` is the reading.
    pub fn start(current_path: String, reading: Result<Vec<Child>, ListError>) -> (session:
        Session)
        ensures
            session@ == started(current_path@, reading_view(reading)),
            session@.is_valid(),
    {
        let notification = match &reading {
            Ok(_) => String::new(),
            Err(e) => e.message(),
        };
        Session {
            navigator: NavigatorState::enter(current_path, reading),
            menu: Menu::new(),
            short_names: true,
            notification,
            pending: Pending::Nothing,
        }
    }

    /// The navigator.
    pub fn navigator(&self) -> (navigator: &NavigatorState)
        ensures
            navigator@ == self@.navigator,
            self@.is_valid(),
    {
        proof {
            use_type_invariant(&self.navigator);
        }
        &self.navigator
    }

    /// The menu.
    pub fn menu(&self) -> (menu: Menu)
        ensures
            menu == self@.menu,
    {
        self.menu
    }

    /// Whether the listing shows short names rather than full paths.
    pub fn short_names(&self) -> (short: bool)
        ensures
            short == self@.short_names,
    {
        self.short_names
    }

    /// The notification: the one line that tells of the last event.
    pub fn notification(&self) -> (text: &str)
        ensures
            text@ == self@.notification,
    {
        self.notification.as_str()
    }

    /// The outside work that the session waits for.
    pub fn pending(&self) -> (pending: &Pending)
        ensures
            pending@ == self@.pending,
    {
        &self.pending
    }

    /// The texts of the listing: short names or full paths, by the display
    /// mode.
    pub fn names(&self) -> (names: Vec<String>)
        ensures
            texts(names@) == shown_names(self@),
    {
        let entries = self.navigator.entries();
        let mut names: Vec<String> = Vec::new();
        let mut i: usize = 0;
        while i < entries.len()
            invariant
                i <= entries.len(),
                names@.len() == i,
                entry_views(entries@) == self@.navigator.entries,
                forall|j: int| 0 <= j < i ==> (#[trigger] names@[j])@ == shown_names(self@)[j],
            decreases entries.len() - i,
        {
            assert(entry_views(entries@)[i as int] == entries@[i as int]@);
            let name = if self.short_names {
                entries[i].display_name.clone()
            } else {
                entries[i].absolute_path.clone()
            };
            names.push(name);
            i += 1;
        }
        assert(entry_views(entries@).len() == entries@.len());
        assert(texts(names@) =~= shown_names(self@));
        names
    }

    /// Lays the session out for a display of `columns` columns.
    pub fn frame(&self, columns: i32) -> (rows: Vec<Row>)
        ensures
            row_views(rows@) == framed(self@, columns as int),
    {
        let left: i32 = if columns <= 0 {
            0
        } else {
            columns / 2
        };
        let mut rows: Vec<Row> = Vec::new();
        rows.push(Row { row: 0, col: 0, text: self.notification.clone(), style: Style::Regular });
        let names = self.names();
        let mut list = list_rows(&names, self.navigator.focus_index(), LIST_TOP, 0);
        let labels = self.menu.labels();
        let mut menu = list_rows(&labels, self.menu.action.index(), LIST_TOP, left);
        let ghost head = rows@;
        let ghost middle = list@;
        let ghost tail = menu@;
        rows.append(&mut list);
        rows.append(&mut menu);
        assert(rows@ == head + middle + tail);
        assert(row_views(head) =~= seq![notification_row(self@)]);
        assert(row_views(head + middle + tail) =~= row_views(head) + row_views(middle) + row_views(
            tail,
        ));
        rows
    }

    /// Takes in a new reading of the current directory, as is due before each
    /// drawing.
    pub fn refresh(&mut self, reading: Result<Vec<Child>, ListError>)
        ensures
            final(self)@ == after_refresh(old(self)@, reading_view(reading)),
            final(self)@.is_valid(),
    {
        match self.navigator.refresh(reading) {
            Ok(_) => {},
            Err(e) => {
                self.notification = e.message();
            },
        }
    }

    /// Takes in a key and says what the caller is to do.
    pub fn on_key(&mut self, key: Key) -> (effect: Effect)
        ensures
            (final(self)@, effect@) == after_key(old(self)@, key),
            final(self)@.is_valid(),
    {
        proof {
            use_type_invariant(&self.navigator);
        }
        self.notification = String::new();
        self.pending = Pending::Nothing;
        match key {
            Key::Up => {
                self.menu.up();
                Effect::Idle
            },
            Key::Down => {
                self.menu.down();
                Effect::Idle
            },
            Key::Left => {
                self.menu.left();
                Effect::Idle
            },
            Key::Right => {
                self.menu.right();
                Effect::Idle
            },
            Key::FocusUp => {
                self.navigator.move_focus(-1);
                Effect::Idle
            },
            Key::FocusDown => {
                self.navigator.move_focus(1);
                Effect::Idle
            },
            Key::Ascend => match self.navigator.ascend_target() {
                None => {
                    self.notification = String::from_str("at lowest directory");
                    Effect::Idle
                },
                Some(dir) => {
                    self.pending = Pending::Ascent;
                    Effect::List(dir)
                },
            },
            Key::Enter => self.select(),
            Key::Quit => Effect::Quit,
            Key::Other => Effect::Idle,
        }
    }

    /// Acts on the select key.
    fn select(&mut self) -> (effect: Effect)
        ensures
            (final(self)@, effect@) == after_select(old(self)@),
            final(self)@.is_valid(),
    {
        proof {
            use_type_invariant(&self.navigator);
        }
        if self.menu.action == MenuAction::ToggleDisplay {
            return self.file_selected(String::new());
        }
        let entry = match self.navigator.focused() {
            None => {
                return Effect::Idle;
            },
            Some(entry) => entry.clone(),
        };
        if entry.is_directory {
            let path = entry.absolute_path.clone();
            self.pending = Pending::Descent(entry);
            Effect::List(path)
        } else {
            match self.navigator.descend_into(&entry, Err(ListError::NotADirectory)) {
                Ok(Action::SelectFile(path)) => self.file_selected(path),
                _ => Effect::Idle,
            }
        }
    }

    /// Hands the file at `path` to the highlighted action.
    fn file_selected(&mut self, path: String) -> (effect: Effect)
        ensures
            (final(self)@, effect@) == after_file_selected(old(self)@, path@),
            final(self)@.is_valid(),
    {
        proof {
            use_type_invariant(&self.navigator);
        }
        let (notification, step) = apply(self.menu.action, path, self.menu.selected_shift());
        self.notification = notification;
        match step {
            Step::Open(path) => Effect::Open(path),
            Step::Load { cipher, path, shift } => {
                self.pending = Pending::Load { cipher, path: path.clone(), shift };
                Effect::Load(path)
            },
            Step::ToggleDisplay => {
                self.short_names = !self.short_names;
                Effect::Idle
            },
        }
    }

    /// Takes in the reading of the directory that [`Effect::List`] named.
    pub fn on_listed(&mut self, reading: Result<Vec<Child>, ListError>)
        ensures
            final(self)@ == after_listed(old(self)@, reading_view(reading)),
            final(self)@.is_valid(),
    {
        proof {
            use_type_invariant(&self.navigator);
        }
        let mut pending = Pending::Nothing;
        std::mem::swap(&mut pending, &mut self.pending);
        match pending {
            Pending::Ascent => match self.navigator.ascend(reading) {
                Ok(true) => {
                    self.notification = String::from_str("Moved directory down");
                },
                Ok(false) => {},
                Err(e) => {
                    self.notification = e.message();
                },
            },
            Pending::Descent(entry) => match self.navigator.descend_into(&entry, reading) {
                Ok(Action::EnterDirectory) => {
                    self.notification = String::from_str("Moved directory up");
                },
                Ok(Action::SelectFile(_)) => {},
                Err(e) => {
                    self.notification = e.message();
                },
            },
            other => {
                self.pending = other;
            },
        }
    }

    /// Takes in the content of the file that [`Effect::Load`] named, `None`
    /// where it could not be read, and says what the caller is to do.
    pub fn on_loaded(&mut self, content: Option<Vec<u8>>) -> (effect: Effect)
        ensures
            (final(self)@, effect@) == after_loaded(old(self)@, content_view(content)),
            final(self)@.is_valid(),
    {
        proof {
            use_type_invariant(&self.navigator);
        }
        let mut pending = Pending::Nothing;
        std::mem::swap(&mut pending, &mut self.pending);
        match pending {
            Pending::Load { cipher, path, shift } => match content {
                Some(bytes) => {
                    let Rewrite { content, renamed_path } = rewrite(
                        cipher,
                        path.as_str(),
                        bytes.as_slice(),
                        shift,
                    );
                    self.pending = Pending::Store;
                    Effect::Store { path, content, renamed_path }
                },
                None => {
                    self.notification = IoError::Read.message();
                    Effect::Idle
                },
            },
            other => {
                self.pending = other;
                Effect::Idle
            },
        }
    }

    /// Takes in the outcome of the storing that [`Effect::Store`] called for.
    pub fn on_stored(&mut self, outcome: Result<(), IoError>)
        ensures
            final(self)@ == after_stored(old(self)@, outcome),
            final(self)@.is_valid(),
    {
        proof {
            use_type_invariant(&self.navigator);
        }
        match self.pending {
            Pending::Store => {
                self.pending = Pending::Nothing;
                match outcome {
                    Ok(_) => {},
                    Err(failure) => {
                        self.notification = failure.message();
                    },
                }
            },
            _ => {},
        }
    }
}

} // verus!
