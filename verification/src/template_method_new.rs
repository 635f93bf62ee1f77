//! The display with a fixed outline, as an enum of the two kinds.

use crate::text::{char_string, repeat, repeat_str};
use vstd::prelude::*;
use vstd::string::*;
use vstd::utf8::encode_utf8;

verus! {

/// How many times a display prints between opening and closing.
pub const TIMES: u32 = 5;

pub enum DisplayType {
    Char(char),
    String(String),
}

impl DisplayType {
    /// The frame line of a string: a dash for each byte of the string in
    /// UTF-8, between two plus signs. A character has no frame line.
    pub open spec fn line_text(&self) -> Seq<char> {
        match self {
            DisplayType::Char(_) => Seq::empty(),
            DisplayType::String(s) => "+"@ + repeat("-"@, encode_utf8(s@).len()) + "+\n"@,
        }
    }

    /// What `open` writes.
    pub open spec fn open_text(&self) -> Seq<char> {
        match self {
            DisplayType::Char(_) => "<<"@,
            DisplayType::String(_) => self.line_text(),
        }
    }

    /// What `print` writes.
    pub open spec fn print_text(&self) -> Seq<char> {
        match self {
            DisplayType::Char(c) => seq![*c],
            DisplayType::String(s) => "|"@ + s@ + "|\n"@,
        }
    }

    /// What `close` writes.
    pub open spec fn close_text(&self) -> Seq<char> {
        match self {
            DisplayType::Char(_) => ">>\n"@,
            DisplayType::String(_) => self.line_text(),
        }
    }

    /// Opens, prints five times and closes.
    pub fn display(&self) -> (out: String)
        ensures
            out@ == self.open_text() + repeat(self.print_text(), TIMES as nat) + self.close_text(),
    {
        let mut out = self.open();
        let mut i: u32 = 0;
        while i < TIMES
            invariant
                i <= TIMES,
                out@ == self.open_text() + repeat(self.print_text(), i as nat),
            decreases TIMES - i,
        {
            out.append(self.print().as_str());
            i = i + 1;
            assert(out@ =~= self.open_text() + repeat(self.print_text(), i as nat));
        }
        out.append(self.close().as_str());
        out
    }

    pub fn print_line(&self) -> (out: String)
        ensures
            out@ == self.line_text(),
    {
        match self {
            DisplayType::Char(_) => String::new(),
            DisplayType::String(s) => {
                let mut out = String::from_str("+");
                out.append(repeat_str("-", s.as_str().as_bytes().len()).as_str());
                out.append("+\n");
                out
            },
        }
    }

    pub fn open(&self) -> (out: String)
        ensures
            out@ == self.open_text(),
    {
        match self {
            DisplayType::Char(_) => String::from_str("<<"),
            DisplayType::String(_) => self.print_line(),
        }
    }

    pub fn print(&self) -> (out: String)
        ensures
            out@ == self.print_text(),
    {
        match self {
            DisplayType::Char(c) => char_string(*c),
            DisplayType::String(s) => {
                let mut out = String::from_str("|");
                out.append(s.as_str());
                out.append("|\n");
                out
            },
        }
    }

    pub fn close(&self) -> (out: String)
        ensures
            out@ == self.close_text(),
    {
        match self {
            DisplayType::Char(_) => String::from_str(">>\n"),
            DisplayType::String(_) => self.print_line(),
        }
    }
}

} // verus!
