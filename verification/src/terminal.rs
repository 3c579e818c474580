//! The terminal binding: keys and styles in the terms of a curses terminal.
//!
//! The session knows a key by what it is bound to and a row by its style. A
//! curses terminal answers a poll with a code and draws with an attribute.
//! This module turns the one into the other, so that nothing else in the
//! crate holds a terminal's code.
//!
//! The codes and the attribute come from the `ncurses` crate. What is taken
//! from it is believed as stated at [`key_up_code`], [`key_down_code`],
//! [`key_left_code`], [`key_right_code`], [`no_key_code`] and [`color_pair`];
//! nothing here proves it.

use vstd::prelude::*;
use crate::layout::Style;
use crate::session::Key;

verus! {

/// The colour pair of regular text.
pub const REGULAR_PAIR: i16 = 0;

/// The colour pair of highlighted text.
pub const HIGHLIGHT_PAIR: i16 = 1;

/// The constant `ncurses::KEY_UP`, the code of the up-arrow key. The contract
/// claims its value.
#[verifier::external_body]
fn key_up_code() -> (code: i32)
    ensures
        code == 0x103,
{
    ncurses::KEY_UP
}

/// The constant `ncurses::KEY_DOWN`, the code of the down-arrow key. The
/// contract claims its value.
#[verifier::external_body]
fn key_down_code() -> (code: i32)
    ensures
        code == 0x102,
{
    ncurses::KEY_DOWN
}

/// The constant `ncurses::KEY_LEFT`, the code of the left-arrow key. The
/// contract claims its value.
#[verifier::external_body]
fn key_left_code() -> (code: i32)
    ensures
        code == 0x104,
{
    ncurses::KEY_LEFT
}

/// The constant `ncurses::KEY_RIGHT`, the code of the right-arrow key. The
/// contract claims its value.
#[verifier::external_body]
fn key_right_code() -> (code: i32)
    ensures
        code == 0x105,
{
    ncurses::KEY_RIGHT
}

/// The constant `ncurses::ERR`, which a poll answers with when no key was
/// pressed in time. The contract claims its value.
#[verifier::external_body]
fn no_key_code() -> (code: i32)
    ensures
        code == -1,
{
    ncurses::ERR
}

/// The function `ncurses::COLOR_PAIR`, which gives the attribute that draws in
/// a colour pair. The contract claims that for a pair that is not negative
/// the attribute is the pair's number moved up by eight bits.
#[verifier::external_body]
fn color_pair(pair: i16) -> (attribute: u64)
    ensures
        pair >= 0 ==> attribute == pair * 256,
{
    ncurses::COLOR_PAIR(pair) as u64
}

/// The key that a poll's answer stands for: none where no key was pressed, an
/// arrow for an arrow's code, and for every other code what the character is
/// bound to.
pub open spec fn key_of(code: i32) -> Option<Key> {
    if code == -1 {
        None
    } else if code == 0x103 {
        Some(Key::Up)
    } else if code == 0x102 {
        Some(Key::Down)
    } else if code == 0x104 {
        Some(Key::Left)
    } else if code == 0x105 {
        Some(Key::Right)
    } else {
        Some(Key::of_code(code))
    }
}

/// The colour pair that a style is drawn in.
pub open spec fn pair_of(style: Style) -> i16 {
    match style {
        Style::Regular => REGULAR_PAIR,
        Style::Highlighted => HIGHLIGHT_PAIR,
    }
}

/// The attribute that a style is drawn with.
pub open spec fn attribute_of(style: Style) -> u64 {
    (pair_of(style) * 256) as u64
}

/// The key that a poll's answer stands for.
pub fn key(code: i32) -> (key: Option<Key>)
    ensures
        key == key_of(code),
{
    if code == no_key_code() {
        None
    } else if code == key_up_code() {
        Some(Key::Up)
    } else if code == key_down_code() {
        Some(Key::Down)
    } else if code == key_left_code() {
        Some(Key::Left)
    } else if code == key_right_code() {
        Some(Key::Right)
    } else {
        Some(Key::from_code(code))
    }
}

/// The colour pair that a style is drawn in.
pub fn pair(style: Style) -> (pair: i16)
    ensures
        pair == pair_of(style),
{
    match style {
        Style::Regular => REGULAR_PAIR,
        Style::Highlighted => HIGHLIGHT_PAIR,
    }
}

/// The attribute that a style is drawn with.
pub fn attribute(style: Style) -> (attribute: u64)
    ensures
        attribute == attribute_of(style),
{
    color_pair(pair(style))
}

} // verus!
