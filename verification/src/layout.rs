//! Layout: text placed in rows, for a display to draw.
//!
//! Nothing here draws. A list is laid out as one [`Row`] per item, each a row
//! further down, and the display is handed the rows.

use vstd::prelude::*;
use vstd::string::*;

verus! {

/// How a row is drawn.
#[derive(Clone, Copy, Debug, PartialEq, Eq, Structural)]
pub enum Style {
    /// Plain text.
    Regular,
    /// The text of the focused item.
    Highlighted,
}

/// One line of text at a place on the display.
#[derive(Debug, PartialEq, Eq)]
pub struct Row {
    /// The row of the display, counted from the top.
    pub row: i32,
    /// The column at which the text starts.
    pub col: i32,
    /// The text.
    pub text: String,
    /// How the text is drawn.
    pub style: Style,
}

/// A [`Row`] as plain values.
pub struct RowView {
    pub row: int,
    pub col: int,
    pub text: Seq<char>,
    pub style: Style,
}

impl View for Row {
    type V = RowView;

    open spec fn view(&self) -> RowView {
        RowView { row: self.row as int, col: self.col as int, text: self.text@, style: self.style }
    }
}

/// The rows of a frame as plain values.
pub open spec fn row_views(rows: Seq<Row>) -> Seq<RowView> {
    Seq::new(rows.len(), |i: int| rows[i]@)
}

/// The texts of a list as plain values.
pub open spec fn texts(items: Seq<String>) -> Seq<Seq<char>> {
    Seq::new(items.len(), |i: int| items[i]@)
}

/// The style of the item at `index` in a list whose focus is on `focus`.
pub open spec fn style_at(index: int, focus: int) -> Style {
    if index == focus {
        Style::Highlighted
    } else {
        Style::Regular
    }
}

/// How many of `len` items get a row when the first is laid out in row `top`:
/// all of them, as far as row numbers go.
pub open spec fn laid_out_count(len: nat, top: int) -> nat {
    if top + len <= i32::MAX + 1 {
        len
    } else {
        (i32::MAX + 1 - top) as nat
    }
}

/// The row of the item at `index`.
pub open spec fn list_row(items: Seq<Seq<char>>, focus: int, top: int, left: int, index: int)
    -> RowView {
    RowView { row: top + index, col: left, text: items[index], style: style_at(index, focus) }
}

/// A list laid out from row `top` down, each item starting in column `left`,
/// the focused item highlighted.
pub open spec fn listed(items: Seq<Seq<char>>, focus: int, top: int, left: int) -> Seq<RowView> {
    Seq::new(laid_out_count(items.len(), top), |i: int| list_row(items, focus, top, left, i))
}

/// Lays a list out from row `top` down: one row per item, in order, each
/// starting in column `left`, the item at `focus` highlighted and the others
/// regular. Items that would lie below the last row number are left out.
pub fn list_rows(items: &Vec<String>, focus: usize, top: i32, left: i32) -> (rows: Vec<Row>)
    ensures
        row_views(rows@) == listed(texts(items@), focus as int, top as int, left as int),
{
    let ghost wanted = listed(texts(items@), focus as int, top as int, left as int);
    let mut rows: Vec<Row> = Vec::new();
    let mut i: usize = 0;
    let mut row: i32 = top;
    let mut room = true;
    while i < items.len() && room
        invariant
            i <= items.len(),
            room ==> row == top + i,
            !room ==> top + i == i32::MAX + 1,
            top + i <= i32::MAX + 1,
            wanted == listed(texts(items@), focus as int, top as int, left as int),
            rows@.len() == i,
            row_views(rows@) == wanted.take(i as int),
        decreases items.len() - i, room as int,
    {
        let style = if i == focus {
            Style::Highlighted
        } else {
            Style::Regular
        };
        let ghost before = rows@;
        rows.push(Row { row, col: left, text: items[i].clone(), style });
        assert(row_views(rows@) =~= wanted.take(i + 1)) by {
            assert(wanted.len() > i);
            assert(rows@[i as int]@ == wanted[i as int]);
            assert forall|j: int| 0 <= j < i implies row_views(rows@)[j] == wanted[j] by {
                assert(rows@[j] == before[j]);
                assert(row_views(before)[j] == wanted.take(i as int)[j]);
            }
        }
        i += 1;
        if row < i32::MAX {
            row += 1;
        } else {
            room = false;
        }
    }
    assert(wanted.take(i as int) =~= wanted);
    rows
}

} // verus!
