//! A display whose outline is fixed while its steps are left to the
//! implementations.

use crate::text::{char_string, repeat};
use vstd::prelude::*;
use vstd::string::*;

verus! {

/// How many times a display prints between opening and closing.
pub const TIMES: u32 = 5;

/// The steps of a display, and the outline that puts them together.
pub trait AbstractDisplay {
    /// What `open` writes.
    spec fn open_text(&self) -> Seq<char>;

    /// What `print` writes.
    spec fn print_text(&self) -> Seq<char>;

    /// What `close` writes.
    spec fn close_text(&self) -> Seq<char>;

    fn open(&self) -> (out: String)
        ensures
            out@ == self.open_text(),
    ;

    fn print(&self) -> (out: String)
        ensures
            out@ == self.print_text(),
    ;

    fn close(&self) -> (out: String)
        ensures
            out@ == self.close_text(),
    ;

    /// Opens, prints five times and closes.
    fn display(&self) -> (out: String)
        ensures
            out@ == self.open_text() + repeat(self.print_text(), TIMES as nat) + self.close_text(),
    {
        let mut out = self.open();
        let mut i: u32 = 0;
        while i < TIMES
            invariant
                i <= TIMES,
                out@ == self.open_text() + repeat(self.print_text(), i as nat),
            decreases TIMES - i,
        {
            out.append(self.print().as_str());
            i = i + 1;
            assert(out@ =~= self.open_text() + repeat(self.print_text(), i as nat));
        }
        out.append(self.close().as_str());
        out
    }
}

/// Shows a character between angle brackets.
pub struct CharDisplay(char);

impl CharDisplay {
    pub closed spec fn ch(&self) -> char {
        self.0
    }

    pub fn new(c: char) -> (display: Self)
        ensures
            display.ch() == c,
    {
        Self(c)
    }
}

impl AbstractDisplay for CharDisplay {
    open spec fn open_text(&self) -> Seq<char> {
        "<<"@
    }

    open spec fn print_text(&self) -> Seq<char> {
        seq![self.ch()]
    }

    open spec fn close_text(&self) -> Seq<char> {
        ">>\n"@
    }

    fn open(&self) -> (out: String) {
        String::from_str("<<")
    }

    fn print(&self) -> (out: String) {
        char_string(self.0)
    }

    fn close(&self) -> (out: String) {
        String::from_str(">>\n")
    }
}

/// Shows a string between angle brackets.
pub struct StringDisplay(String);

impl StringDisplay {
    pub closed spec fn text(&self) -> Seq<char> {
        self.0@
    }

    pub fn new(s: String) -> (display: Self)
        ensures
            display.text() == s@,
    {
        Self(s)
    }
}

impl AbstractDisplay for StringDisplay {
    open spec fn open_text(&self) -> Seq<char> {
        "<<"@
    }

    open spec fn print_text(&self) -> Seq<char> {
        self.text()
    }

    open spec fn close_text(&self) -> Seq<char> {
        ">>\n"@
    }

    fn open(&self) -> (out: String) {
        String::from_str("<<")
    }

    fn print(&self) -> (out: String) {
        self.0.clone()
    }

    fn close(&self) -> (out: String) {
        String::from_str(">>\n")
    }
}

} // verus!
