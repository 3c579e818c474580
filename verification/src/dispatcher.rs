//! The action dispatcher: what a menu action makes of a selected file.
//!
//! [`apply`] says what an action calls for first: reading hands the file to
//! the system's handler, the display switch touches no file, and a cipher
//! action calls for the file's content. [`rewrite`] then works the cipher
//! action out on that content.
//!
//! Encrypting encodes the content and tags the file's name with the applied
//! shift; decrypting decodes the content and removes the tag. The dispatcher
//! keeps nothing between calls and touches no file: it is handed the content
//! that was read, and gives back what is to be written to the same path and
//! the path that the file is then to be renamed to, in the same directory.
//!
//! Decrypting uses the shift it is given, not the one in the tag. With another
//! shift than the file was encoded with, the content comes out wrong and
//! nothing notices.

use vstd::prelude::*;
use vstd::string::*;
use crate::menu::MenuAction;
use crate::filename::{
    decimal,
    digit_value,
    lemma_decimal_is_canonical,
    lemma_strip_undoes_tag,
    strip_for_decrypt,
    stripped,
    tag_for_encrypt,
    tagged,
};
use crate::path::{
    directory_prefix,
    file_name,
    file_name_of,
    last_separator,
    lemma_last_separator,
    lemma_last_separator_is,
    with_file_name,
    with_file_name_of,
    SEPARATOR,
};
use crate::transform::{
    decode,
    decoded,
    effective_shift,
    encode,
    encoded,
    in_window,
    lemma_round_trip,
    reduce_shift,
    WINDOW_HIGH,
};

verus! {

/// The direction of a cipher action.
#[derive(Clone, Copy, Debug, PartialEq, Eq, Structural)]
pub enum Cipher {
    /// Encode and tag.
    Encrypt,
    /// Decode and remove the tag.
    Decrypt,
}

/// The step of a cipher action that failed on the file.
#[derive(Clone, Copy, Debug, PartialEq, Eq, Structural)]
pub enum IoError {
    /// The content could not be read.
    Read,
    /// The new content could not be written.
    Write,
    /// The file could not be renamed; its content is already the new one.
    Rename,
}

impl IoError {
    /// The notification for the failure.
    pub open spec fn message_of(self) -> Seq<char> {
        match self {
            IoError::Read => "Error while reading file"@,
            IoError::Write => "Couldn't write to file"@,
            IoError::Rename => "Couldn't rename a file"@,
        }
    }

    /// The notification for the failure.
    pub fn message(self) -> (text: String)
        ensures
            text@ == self.message_of(),
    {
        match self {
            IoError::Read => String::from_str("Error while reading file"),
            IoError::Write => String::from_str("Couldn't write to file"),
            IoError::Rename => String::from_str("Couldn't rename a file"),
        }
    }
}

/// What an action on a file calls for first.
#[derive(Debug, PartialEq, Eq)]
pub enum Step {
    /// Hand the file at the path to the system's handler for it.
    Open(String),
    /// Read the content of the file at `path`, then work the cipher action
    /// out on it with [`rewrite`].
    Load { cipher: Cipher, path: String, shift: u8 },
    /// Flip the display mode.
    ToggleDisplay,
}

/// A [`Step`] as plain values.
pub enum StepView {
    Open(Seq<char>),
    Load { cipher: Cipher, path: Seq<char>, shift: u8 },
    ToggleDisplay,
}

impl View for Step {
    type V = StepView;

    open spec fn view(&self) -> StepView {
        match self {
            Step::Open(path) => StepView::Open(path@),
            Step::Load { cipher, path, shift } => StepView::Load {
                cipher: *cipher,
                path: path@,
                shift: *shift,
            },
            Step::ToggleDisplay => StepView::ToggleDisplay,
        }
    }
}

/// The notification when a file is handed to the system's handler.
pub open spec fn notice_opening() -> Seq<char> {
    "Opening selected file"@
}

/// The notification and the first step of `action` on the file at `path`.
/// Only reading tells of itself at once; a cipher action carries the selected
/// shift along.
pub open spec fn applied(action: MenuAction, path: Seq<char>, selected_shift: u8) -> (
    Seq<char>,
    StepView,
) {
    match action {
        MenuAction::Read => (notice_opening(), StepView::Open(path)),
        MenuAction::Encrypt => (
            Seq::empty(),
            StepView::Load { cipher: Cipher::Encrypt, path, shift: selected_shift },
        ),
        MenuAction::Decrypt => (
            Seq::empty(),
            StepView::Load { cipher: Cipher::Decrypt, path, shift: selected_shift },
        ),
        MenuAction::ToggleDisplay => (Seq::empty(), StepView::ToggleDisplay),
    }
}

/// Applies a menu action to the file at `path`: gives the notification for
/// it and what it calls for first.
pub fn apply(action: MenuAction, path: String, selected_shift: u8) -> (out: (String, Step))
    ensures
        (out.0@, out.1@) == applied(action, path@, selected_shift),
{
    match action {
        MenuAction::Read => (String::from_str("Opening selected file"), Step::Open(path)),
        MenuAction::Encrypt => (
            String::new(),
            Step::Load { cipher: Cipher::Encrypt, path, shift: selected_shift },
        ),
        MenuAction::Decrypt => (
            String::new(),
            Step::Load { cipher: Cipher::Decrypt, path, shift: selected_shift },
        ),
        MenuAction::ToggleDisplay => (String::new(), Step::ToggleDisplay),
    }
}

/// What a cipher action asks for: new content for the file, and a new path.
#[derive(Debug, PartialEq, Eq)]
pub struct Rewrite {
    /// The bytes to write in place of the file's content.
    pub content: Vec<u8>,
    /// The path to rename the file to once the content is written.
    pub renamed_path: String,
}

/// A [`Rewrite`] as plain values.
pub struct RewriteView {
    pub content: Seq<u8>,
    pub renamed_path: Seq<char>,
}

impl View for Rewrite {
    type V = RewriteView;

    open spec fn view(&self) -> RewriteView {
        RewriteView { content: self.content@, renamed_path: self.renamed_path@ }
    }
}

/// The name that a cipher action gives to a file called `name`.
pub open spec fn renamed(cipher: Cipher, name: Seq<char>, shift: u8) -> Seq<char> {
    match cipher {
        Cipher::Encrypt => tagged(name, effective_shift(shift) as u8),
        Cipher::Decrypt => stripped(name),
    }
}

/// What a cipher action makes of the file at `path` with the given content:
/// the content goes through the transform, and the last component of the path
/// is renamed.
pub open spec fn rewritten(cipher: Cipher, path: Seq<char>, content: Seq<u8>, shift: u8)
    -> RewriteView {
    RewriteView {
        content: match cipher {
            Cipher::Encrypt => encoded(content, shift),
            Cipher::Decrypt => decoded(content, shift),
        },
        renamed_path: with_file_name_of(path, renamed(cipher, file_name_of(path), shift)),
    }
}

/// Works out a cipher action on the file at `path`, of which `content` is what
/// was read. The tag of an encrypted file holds the shift as it was applied,
/// that is reduced.
pub fn rewrite(cipher: Cipher, path: &str, content: &[u8], shift: u8) -> (out: Rewrite)
    ensures
        out@ == rewritten(cipher, path@, content@, shift),
{
    let name = file_name(path);
    match cipher {
        Cipher::Encrypt => {
            let new_name = tag_for_encrypt(name.as_str(), reduce_shift(shift));
            Rewrite {
                content: encode(content, shift),
                renamed_path: with_file_name(path, new_name.as_str()),
            }
        },
        Cipher::Decrypt => {
            let new_name = strip_for_decrypt(name.as_str());
            Rewrite {
                content: decode(content, shift),
                renamed_path: with_file_name(path, new_name.as_str()),
            }
        },
    }
}

/// A tagged name is one component: tagging brings no separator into a name.
pub proof fn lemma_tagged_last_component(path: Seq<char>, shift: u8)
    ensures
        file_name_of(with_file_name_of(path, tagged(file_name_of(path), shift))) == tagged(
            file_name_of(path),
            shift,
        ),
        directory_prefix(with_file_name_of(path, tagged(file_name_of(path), shift)))
            == directory_prefix(path),
{
    lemma_last_separator(path);
    let cut = last_separator(path);
    let name = file_name_of(path);
    let digits = decimal(shift as nat);
    let tag = tagged(name, shift);
    let out = with_file_name_of(path, tag);
    lemma_decimal_is_canonical(shift as nat);
    assert forall|j: int| cut < j < out.len() implies out[j] != SEPARATOR by {
        let k = j - cut - 1;
        assert(out[j] == tag[k]);
        if k < digits.len() {
            assert(digit_value(digits[k]) is Some);
        } else if k >= digits.len() + 2 {
            assert(tag[k] == path[cut + 1 + (k - digits.len() - 2)]);
        }
    }
    lemma_last_separator_is(out, cut);
    assert(out.subrange(cut + 1, out.len() as int) =~= tag);
    assert(out.subrange(0, cut + 1) =~= path.subrange(0, cut + 1));
}

/// Decrypting gives an encrypted file its path back: for every path and both
/// shifts, the path that decrypting renames the encrypted file to is the path
/// that the file had before it was encrypted.
pub proof fn lemma_decrypt_restores_path(
    path: Seq<char>,
    content: Seq<u8>,
    other: Seq<u8>,
    shift: u8,
    other_shift: u8,
)
    ensures
        rewritten(
            Cipher::Decrypt,
            rewritten(Cipher::Encrypt, path, content, shift).renamed_path,
            other,
            other_shift,
        ).renamed_path == path,
{
    let applied = effective_shift(shift) as u8;
    let name = file_name_of(path);
    let encrypted = with_file_name_of(path, tagged(name, applied));
    lemma_tagged_last_component(path, applied);
    lemma_strip_undoes_tag(name, applied);
    lemma_last_separator(path);
    assert(directory_prefix(path) + name =~= path);
}

/// Decrypting gives an encrypted file its content back: for a shift from 1 to
/// 25 and printable bytes, none of which the shift carries more than one past
/// the printable window, decrypting what encrypting wrote, with the same
/// shift, gives the bytes that were there before.
pub proof fn lemma_decrypt_restores_content(
    path: Seq<char>,
    other_path: Seq<char>,
    content: Seq<u8>,
    shift: u8,
)
    requires
        1 <= shift <= 25,
        forall|i: int| 0 <= i < content.len() ==> in_window(#[trigger] content[i]),
        forall|i: int| 0 <= i < content.len() ==> #[trigger] content[i] + shift <= WINDOW_HIGH + 1,
    ensures
        rewritten(
            Cipher::Decrypt,
            other_path,
            rewritten(Cipher::Encrypt, path, content, shift).content,
            shift,
        ).content == content,
{
    lemma_round_trip(content, shift);
}

} // verus!
