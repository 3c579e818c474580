//! The action menu: which action is highlighted, and which cipher method each
//! of the two cipher rows holds.

use vstd::prelude::*;
use vstd::string::*;
use crate::filename::{decimal, decimal_text};
use crate::layout::texts;
use crate::transform::effective_shift;

verus! {

/// What can be done with a selected file.
#[derive(Clone, Copy, Debug, PartialEq, Eq, Structural)]
pub enum MenuAction {
    /// Open the file with the system's handler for it.
    Read,
    /// Encode the file and tag its name.
    Encrypt,
    /// Decode the file and remove the tag from its name.
    Decrypt,
    /// Switch the listing between short names and full paths.
    ToggleDisplay,
}

impl MenuAction {
    /// The row of the action in the menu, counted from 0.
    pub open spec fn row(self) -> nat {
        match self {
            MenuAction::Read => 0,
            MenuAction::Encrypt => 1,
            MenuAction::Decrypt => 2,
            MenuAction::ToggleDisplay => 3,
        }
    }

    /// The action one row up; the first action stays.
    pub open spec fn above(self) -> MenuAction {
        match self {
            MenuAction::Read => MenuAction::Read,
            MenuAction::Encrypt => MenuAction::Read,
            MenuAction::Decrypt => MenuAction::Encrypt,
            MenuAction::ToggleDisplay => MenuAction::Decrypt,
        }
    }

    /// The action one row down; the last action stays.
    pub open spec fn below(self) -> MenuAction {
        match self {
            MenuAction::Read => MenuAction::Encrypt,
            MenuAction::Encrypt => MenuAction::Decrypt,
            MenuAction::Decrypt => MenuAction::ToggleDisplay,
            MenuAction::ToggleDisplay => MenuAction::ToggleDisplay,
        }
    }

    /// The row of the action in the menu, counted from 0.
    pub fn index(self) -> (row: usize)
        ensures
            row == self.row(),
            row < ACTION_COUNT,
    {
        match self {
            MenuAction::Read => 0,
            MenuAction::Encrypt => 1,
            MenuAction::Decrypt => 2,
            MenuAction::ToggleDisplay => 3,
        }
    }
}

/// The number of rows in the menu.
pub const ACTION_COUNT: usize = 4;

/// A cipher method: a Caesar shift by a fixed amount.
#[derive(Clone, Copy, Debug, PartialEq, Eq, Structural)]
pub enum Method {
    /// Shift by 1.
    Caesar1,
    /// Shift by 5.
    Caesar5,
    /// Shift by 12.
    Caesar12,
}

impl Method {
    /// The shift of the method.
    pub open spec fn shift_of(self) -> u8 {
        match self {
            Method::Caesar1 => 1,
            Method::Caesar5 => 5,
            Method::Caesar12 => 12,
        }
    }

    /// The method before this one; the first method stays.
    pub open spec fn before(self) -> Method {
        match self {
            Method::Caesar1 => Method::Caesar1,
            Method::Caesar5 => Method::Caesar1,
            Method::Caesar12 => Method::Caesar5,
        }
    }

    /// The method after this one; the last method stays.
    pub open spec fn after(self) -> Method {
        match self {
            Method::Caesar1 => Method::Caesar5,
            Method::Caesar5 => Method::Caesar12,
            Method::Caesar12 => Method::Caesar12,
        }
    }

    /// The name of the method: `Caesar-` and its shift in decimal.
    pub open spec fn label_of(self) -> Seq<char> {
        "Caesar-"@ + decimal(self.shift_of() as nat)
    }

    /// The shift of the method: never 0 and below the modulus of the cipher,
    /// so it is applied as it stands.
    pub fn shift(self) -> (shift: u8)
        ensures
            shift == self.shift_of(),
            1 <= shift <= 25,
            effective_shift(shift) == shift,
    {
        match self {
            Method::Caesar1 => 1,
            Method::Caesar5 => 5,
            Method::Caesar12 => 12,
        }
    }

    /// The name of the method.
    pub fn label(self) -> (label: String)
        ensures
            label@ == self.label_of(),
    {
        let mut label = String::from_str("Caesar-");
        let digits = decimal_text(self.shift());
        label.append(digits.as_str());
        label
    }
}

/// The menu: the highlighted action and the method of each cipher row.
#[derive(Clone, Copy, Debug, PartialEq, Eq, Structural)]
pub struct Menu {
    /// The highlighted action.
    pub action: MenuAction,
    /// The method of the encrypt row.
    pub encrypt_method: Method,
    /// The method of the decrypt row.
    pub decrypt_method: Method,
}

impl Menu {
    /// The menu at the start: the first action, and the first method in both
    /// cipher rows.
    pub open spec fn initial() -> Menu {
        Menu {
            action: MenuAction::Read,
            encrypt_method: Method::Caesar1,
            decrypt_method: Method::Caesar1,
        }
    }

    /// The menu with the highlight one row up.
    pub open spec fn moved_up(self) -> Menu {
        Menu { action: self.action.above(), ..self }
    }

    /// The menu with the highlight one row down.
    pub open spec fn moved_down(self) -> Menu {
        Menu { action: self.action.below(), ..self }
    }

    /// The menu with the method of the highlighted cipher row one back. On
    /// another row nothing changes.
    pub open spec fn moved_left(self) -> Menu {
        match self.action {
            MenuAction::Encrypt => Menu { encrypt_method: self.encrypt_method.before(), ..self },
            MenuAction::Decrypt => Menu { decrypt_method: self.decrypt_method.before(), ..self },
            _ => self,
        }
    }

    /// The menu with the method of the highlighted cipher row one on. On
    /// another row nothing changes.
    pub open spec fn moved_right(self) -> Menu {
        match self.action {
            MenuAction::Encrypt => Menu { encrypt_method: self.encrypt_method.after(), ..self },
            MenuAction::Decrypt => Menu { decrypt_method: self.decrypt_method.after(), ..self },
            _ => self,
        }
    }

    /// The shift of the highlighted row: that of its method on a cipher row,
    /// and 0, which shifts nothing, on a row without one.
    pub open spec fn selected_shift_of(self) -> u8 {
        match self.action {
            MenuAction::Encrypt => self.encrypt_method.shift_of(),
            MenuAction::Decrypt => self.decrypt_method.shift_of(),
            _ => 0,
        }
    }

    /// The text of the row of `action`.
    pub open spec fn label_of(self, action: MenuAction) -> Seq<char> {
        match action {
            MenuAction::Read => "Read file"@,
            MenuAction::Encrypt => "Encrypt "@ + self.encrypt_method.label_of(),
            MenuAction::Decrypt => "Decrypt "@ + self.decrypt_method.label_of(),
            MenuAction::ToggleDisplay => "Switch between full/short path"@,
        }
    }

    /// The texts of all rows, from the top.
    pub open spec fn labels_of(self) -> Seq<Seq<char>> {
        seq![
            self.label_of(MenuAction::Read),
            self.label_of(MenuAction::Encrypt),
            self.label_of(MenuAction::Decrypt),
            self.label_of(MenuAction::ToggleDisplay),
        ]
    }

    /// The menu at the start.
    pub fn new() -> (menu: Menu)
        ensures
            menu == Menu::initial(),
    {
        Menu {
            action: MenuAction::Read,
            encrypt_method: Method::Caesar1,
            decrypt_method: Method::Caesar1,
        }
    }

    /// Moves the highlight one row up.
    pub fn up(&mut self)
        ensures
            *final(self) == old(self).moved_up(),
    {
        self.action =
        match self.action {
            MenuAction::Read => MenuAction::Read,
            MenuAction::Encrypt => MenuAction::Read,
            MenuAction::Decrypt => MenuAction::Encrypt,
            MenuAction::ToggleDisplay => MenuAction::Decrypt,
        };
    }

    /// Moves the highlight one row down.
    pub fn down(&mut self)
        ensures
            *final(self) == old(self).moved_down(),
    {
        self.action =
        match self.action {
            MenuAction::Read => MenuAction::Encrypt,
            MenuAction::Encrypt => MenuAction::Decrypt,
            MenuAction::Decrypt => MenuAction::ToggleDisplay,
            MenuAction::ToggleDisplay => MenuAction::ToggleDisplay,
        };
    }

    /// Moves the method of the highlighted cipher row one back.
    pub fn left(&mut self)
        ensures
            *final(self) == old(self).moved_left(),
    {
        match self.action {
            MenuAction::Encrypt => {
                self.encrypt_method =
                match self.encrypt_method {
                    Method::Caesar12 => Method::Caesar5,
                    _ => Method::Caesar1,
                };
            },
            MenuAction::Decrypt => {
                self.decrypt_method =
                match self.decrypt_method {
                    Method::Caesar12 => Method::Caesar5,
                    _ => Method::Caesar1,
                };
            },
            _ => {},
        }
    }

    /// Moves the method of the highlighted cipher row one on.
    pub fn right(&mut self)
        ensures
            *final(self) == old(self).moved_right(),
    {
        match self.action {
            MenuAction::Encrypt => {
                self.encrypt_method =
                match self.encrypt_method {
                    Method::Caesar1 => Method::Caesar5,
                    _ => Method::Caesar12,
                };
            },
            MenuAction::Decrypt => {
                self.decrypt_method =
                match self.decrypt_method {
                    Method::Caesar1 => Method::Caesar5,
                    _ => Method::Caesar12,
                };
            },
            _ => {},
        }
    }

    /// The shift of the highlighted row.
    pub fn selected_shift(&self) -> (shift: u8)
        ensures
            shift == self.selected_shift_of(),
    {
        match self.action {
            MenuAction::Encrypt => self.encrypt_method.shift(),
            MenuAction::Decrypt => self.decrypt_method.shift(),
            _ => 0,
        }
    }

    /// The text of the row of `action`.
    pub fn label(&self, action: MenuAction) -> (label: String)
        ensures
            label@ == self.label_of(action),
    {
        match action {
            MenuAction::Read => String::from_str("Read file"),
            MenuAction::Encrypt => {
                let mut label = String::from_str("Encrypt ");
                let method = self.encrypt_method.label();
                label.append(method.as_str());
                label
            },
            MenuAction::Decrypt => {
                let mut label = String::from_str("Decrypt ");
                let method = self.decrypt_method.label();
                label.append(method.as_str());
                label
            },
            MenuAction::ToggleDisplay => String::from_str("Switch between full/short path"),
        }
    }

    /// The texts of all rows, from the top.
    pub fn labels(&self) -> (labels: Vec<String>)
        ensures
            labels@.len() == ACTION_COUNT,
            texts(labels@) == self.labels_of(),
    {
        let mut labels: Vec<String> = Vec::new();
        labels.push(self.label(MenuAction::Read));
        labels.push(self.label(MenuAction::Encrypt));
        labels.push(self.label(MenuAction::Decrypt));
        labels.push(self.label(MenuAction::ToggleDisplay));
        assert(texts(labels@) =~= self.labels_of());
        labels
    }
}

} // verus!
