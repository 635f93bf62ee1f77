//! Text displays that can be wrapped in borders, behind one trait.

use crate::text::{char_string, lines, push_char, repeat, repeat_char};
use std::rc::Rc;
use vstd::prelude::*;
use vstd::string::*;
use vstd::utf8::encode_utf8;

pub mod enum_base;

verus! {

/// Something that shows as a block of rows of text.
pub trait Display {
    /// The width of the display.
    spec fn columns(&self) -> nat;

    /// The number of rows.
    spec fn rows(&self) -> nat;

    /// The text of one row.
    spec fn row_text(&self, row: nat) -> Seq<char>;

    fn get_columns(&self) -> (columns: usize)
        requires
            self.columns() <= usize::MAX,
        ensures
            columns == self.columns(),
    ;

    fn get_rows(&self) -> (rows: u32)
        requires
            self.rows() <= u32::MAX,
        ensures
            rows == self.rows(),
    ;

    fn get_row_text(&self, row: u32) -> (text: String)
        requires
            self.columns() <= usize::MAX,
            self.rows() <= u32::MAX,
            row < self.rows(),
        ensures
            text@ == self.row_text(row as nat),
    ;

    /// What the display looks like: all its rows, a line each.
    fn show(&self) -> (out: String)
        requires
            self.columns() <= usize::MAX,
            self.rows() <= u32::MAX,
        ensures
            out@ == lines(Seq::new(self.rows(), |i: int| self.row_text(i as nat))),
    {
        let mut out = String::new();
        let rows = self.get_rows();
        let mut i: u32 = 0;
        while i < rows
            invariant
                i <= rows,
                rows == self.rows(),
                self.columns() <= usize::MAX,
                out@ == lines(Seq::new(i as nat, |k: int| self.row_text(k as nat))),
            decreases rows - i,
        {
            let s = self.get_row_text(i);
            out.append(s.as_str());
            out.append("\n");
            proof {
                let done = Seq::new((i + 1) as nat, |k: int| self.row_text(k as nat));
                assert(done.drop_last() =~= Seq::new(i as nat, |k: int| self.row_text(k as nat)));
            }
            i = i + 1;
        }
        out
    }
}

/// A single row of text.
pub struct StringDisplay(String);

impl StringDisplay {
    pub closed spec fn text(&self) -> Seq<char> {
        self.0@
    }

    pub fn new(s: &str) -> (display: Self)
        ensures
            display.text() == s@,
    {
        Self(s.to_owned())
    }
}

impl Display for StringDisplay {
    /// The number of bytes of the text in UTF-8.
    open spec fn columns(&self) -> nat {
        encode_utf8(self.text()).len()
    }

    open spec fn rows(&self) -> nat {
        1
    }

    open spec fn row_text(&self, row: nat) -> Seq<char> {
        self.text()
    }

    fn get_columns(&self) -> (columns: usize) {
        self.0.as_str().len()
    }

    fn get_rows(&self) -> (rows: u32) {
        1
    }

    fn get_row_text(&self, row: u32) -> (text: String) {
        self.0.clone()
    }
}

/// A display that decorates another one.
pub trait Border: Display {

}

/// A frame all around another display, which may be of a type known at
/// compile time or a `dyn Display`.
pub struct FullBorder<D: Display + ?Sized = dyn Display> {
    underlying: Rc<D>,
}

impl<D: Display + ?Sized> FullBorder<D> {
    pub closed spec fn underlying(&self) -> Rc<D> {
        self.underlying
    }

    pub fn new(underlying: Rc<D>) -> (border: Self)
        ensures
            border.underlying() == underlying,
    {
        Self { underlying }
    }

    pub fn make_line(ch: char, count: usize) -> (line: String)
        ensures
            line@ == repeat(seq![ch], count as nat),
    {
        repeat_char(ch, count)
    }
}

impl<D: Display + ?Sized> Display for FullBorder<D> {
    open spec fn columns(&self) -> nat {
        1 + self.underlying().columns() + 1
    }

    open spec fn rows(&self) -> nat {
        1 + self.underlying().rows() + 1
    }

    /// The first and the last row are a line of dashes between plus
    /// signs; the rows in between are those of the display inside, with a
    /// bar at both ends.
    open spec fn row_text(&self, row: nat) -> Seq<char> {
        if row == 0 || row == self.underlying().rows() + 1 {
            "+"@ + repeat(seq!['-'], self.underlying().columns()) + "+"@
        } else {
            "|"@ + self.underlying().row_text((row - 1) as nat) + "|"@
        }
    }

    fn get_columns(&self) -> (columns: usize) {
        1 + self.underlying.get_columns() + 1
    }

    fn get_rows(&self) -> (rows: u32) {
        1 + self.underlying.get_rows() + 1
    }

    fn get_row_text(&self, row: u32) -> (text: String) {
        if row == 0 || row == self.underlying.get_rows() + 1 {
            let mut text = String::from_str("+");
            text.append(Self::make_line('-', self.underlying.get_columns()).as_str());
            text.append("+");
            text
        } else {
            let mut text = String::from_str("|");
            text.append(self.underlying.get_row_text(row - 1).as_str());
            text.append("|");
            text
        }
    }
}

/// One character at both ends of each row of another display.
pub struct SideBorder<D: Display + ?Sized = dyn Display> {
    underlying: Rc<D>,
    border_char: char,
}

impl<D: Display + ?Sized> SideBorder<D> {
    pub closed spec fn underlying(&self) -> Rc<D> {
        self.underlying
    }

    pub closed spec fn border_char(&self) -> char {
        self.border_char
    }

    pub fn new(underlying: Rc<D>, ch: char) -> (border: Self)
        ensures
            border.underlying() == underlying,
            border.border_char() == ch,
    {
        Self { underlying, border_char: ch }
    }
}

impl<D: Display + ?Sized> Display for SideBorder<D> {
    open spec fn columns(&self) -> nat {
        1 + self.underlying().columns() + 1
    }

    open spec fn rows(&self) -> nat {
        self.underlying().rows()
    }

    open spec fn row_text(&self, row: nat) -> Seq<char> {
        seq![self.border_char()] + self.underlying().row_text(row) + seq![self.border_char()]
    }

    fn get_columns(&self) -> (columns: usize) {
        1 + self.underlying.get_columns() + 1
    }

    fn get_rows(&self) -> (rows: u32) {
        self.underlying.get_rows()
    }

    fn get_row_text(&self, row: u32) -> (text: String) {
        let mut text = char_string(self.border_char);
        text.append(self.underlying.get_row_text(row).as_str());
        push_char(&mut text, self.border_char);
        text
    }
}

} // verus!
