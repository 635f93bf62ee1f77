//! Text displays that can be wrapped in borders, as one recursive enum.

use crate::text::{char_string, push_char, repeat, repeat_char};
use std::rc::Rc;
use vstd::prelude::*;
use vstd::string::*;
use vstd::utf8::encode_utf8;

verus! {

/// A text, or a display with a border around it.
#[derive(Debug)]
pub enum Display {
    String(String),
    SideBorder(Rc<Display>, char),
    FullBorder(Rc<Display>),
}

impl Display {
    /// The width of the display: the number of bytes of the text in UTF-8,
    /// and two more for each border around it.
    pub open spec fn columns(&self) -> nat
        decreases self,
    {
        match self {
            Display::String(value) => encode_utf8(value@).len(),
            Display::SideBorder(underlying, _) => 1 + underlying.columns() + 1,
            Display::FullBorder(underlying) => 1 + underlying.columns() + 1,
        }
    }

    /// The height of the display: one row for a text, two more for each
    /// full border.
    pub open spec fn rows(&self) -> nat
        decreases self,
    {
        match self {
            Display::String(_) => 1,
            Display::SideBorder(underlying, _) => underlying.rows(),
            Display::FullBorder(underlying) => 1 + underlying.rows() + 1,
        }
    }

    /// The text of one row. A side border puts its character at both ends
    /// of the row inside. A full border has a line of dashes between plus
    /// signs as its first and last row, and puts a bar at both ends of the
    /// rows in between.
    pub open spec fn row_text(&self, row: nat) -> Seq<char>
        decreases self,
    {
        match self {
            Display::String(value) => value@,
            Display::SideBorder(underlying, border_char) => seq![*border_char]
                + underlying.row_text(row) + seq![*border_char],
            Display::FullBorder(underlying) => if row == 0 || row == underlying.rows() + 1 {
                "+"@ + repeat(seq!['-'], underlying.columns()) + "+"@
            } else {
                "|"@ + underlying.row_text((row - 1) as nat) + "|"@
            },
        }
    }

    /// The first `count` rows, each followed by a line feed.
    pub open spec fn rows_text(&self, count: nat) -> Seq<char>
        decreases count,
    {
        if count == 0 {
            Seq::empty()
        } else {
            self.rows_text((count - 1) as nat) + self.row_text((count - 1) as nat) + "\n"@
        }
    }

    /// The width fits a `usize` and the height a `u32`.
    pub open spec fn fits(&self) -> bool {
        self.columns() <= usize::MAX && self.rows() <= u32::MAX
    }

    pub fn make_line(ch: char, count: usize) -> (line: String)
        ensures
            line@ == repeat(seq![ch], count as nat),
    {
        repeat_char(ch, count)
    }

    pub fn of_string(value: &str) -> (display: Self)
        ensures
            display matches Display::String(text) && text@ == value@,
    {
        Display::String(value.to_owned())
    }

    pub fn of_side_border(underlying: Rc<Display>, border_char: char) -> (display: Self)
        ensures
            display == Display::SideBorder(underlying, border_char),
    {
        Display::SideBorder(underlying, border_char)
    }

    pub fn of_full_border(underlying: Rc<Display>) -> (display: Self)
        ensures
            display == Display::FullBorder(underlying),
    {
        Display::FullBorder(underlying)
    }

    pub fn get_columns(&self) -> (columns: usize)
        requires
            self.columns() <= usize::MAX,
        ensures
            columns == self.columns(),
        decreases self,
    {
        match self {
            Display::String(value) => value.as_str().len(),
            Display::SideBorder(underlying, _) => 1 + underlying.get_columns() + 1,
            Display::FullBorder(underlying) => 1 + underlying.get_columns() + 1,
        }
    }

    pub fn get_rows(&self) -> (rows: u32)
        requires
            self.rows() <= u32::MAX,
        ensures
            rows == self.rows(),
        decreases self,
    {
        match self {
            Display::String(_) => 1,
            Display::SideBorder(underlying, _) => underlying.get_rows(),
            Display::FullBorder(underlying) => 1 + underlying.get_rows() + 1,
        }
    }

    pub fn get_row_text(&self, row: u32) -> (text: String)
        requires
            self.fits(),
            row < self.rows(),
        ensures
            text@ == self.row_text(row as nat),
        decreases self,
    {
        match self {
            Display::String(value) => value.clone(),
            Display::SideBorder(underlying, border_char) => {
                let mut text = char_string(*border_char);
                text.append(underlying.get_row_text(row).as_str());
                push_char(&mut text, *border_char);
                text
            },
            Display::FullBorder(underlying) => {
                if row == 0 || row == underlying.get_rows() + 1 {
                    let mut text = String::from_str("+");
                    text.append(Self::make_line('-', underlying.get_columns()).as_str());
                    text.append("+");
                    text
                } else {
                    let mut text = String::from_str("|");
                    text.append(underlying.get_row_text(row - 1).as_str());
                    text.append("|");
                    text
                }
            },
        }
    }

    /// What the display looks like: all its rows, a line each.
    pub fn show(&self) -> (out: String)
        requires
            self.fits(),
        ensures
            out@ == self.rows_text(self.rows()),
    {
        let mut out = String::new();
        let rows = self.get_rows();
        let mut i: u32 = 0;
        while i < rows
            invariant
                i <= rows,
                rows == self.rows(),
                self.fits(),
                out@ == self.rows_text(i as nat),
            decreases rows - i,
        {
            let s = self.get_row_text(i);
            out.append(s.as_str());
            out.append("\n");
            i = i + 1;
        }
        out
    }
}

} // verus!
