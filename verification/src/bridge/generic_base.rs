//! The bridge with the implementation chosen at compile time.

use crate::bridge::{frame_line, frame_line_string, string_texts, Texts};
use crate::text::repeat;
use vstd::prelude::*;
use vstd::string::*;

verus! {

/// What is shown. None of the operations changes the texts.
pub trait Display {
    spec fn texts(&self) -> Texts;

    fn open(&mut self) -> (out: String)
        ensures
            out@ == old(self).texts().open,
            final(self).texts() == old(self).texts(),
    ;

    fn print(&self) -> (out: String)
        ensures
            out@ == self.texts().print,
    ;

    fn close(&mut self) -> (out: String)
        ensures
            out@ == old(self).texts().close,
            final(self).texts() == old(self).texts(),
    ;

    /// Opens, prints once and closes.
    fn display(&mut self) -> (out: String)
        ensures
            out@ == old(self).texts().open + old(self).texts().print + old(self).texts().close,
            final(self).texts() == old(self).texts(),
    ;
}

/// How it is drawn. None of the operations changes the texts.
pub trait DisplayImpl {
    spec fn texts(&self) -> Texts;

    fn raw_open(&mut self) -> (out: String)
        ensures
            out@ == old(self).texts().open,
            final(self).texts() == old(self).texts(),
    ;

    fn raw_print(&self) -> (out: String)
        ensures
            out@ == self.texts().print,
    ;

    fn raw_close(&mut self) -> (out: String)
        ensures
            out@ == old(self).texts().close,
            final(self).texts() == old(self).texts(),
    ;
}

/// The plain display: it hands every operation to its implementation.
#[derive(Debug)]
pub struct DisplayDefault<DI: DisplayImpl> {
    underlying: DI,
}

impl<DI: DisplayImpl> DisplayDefault<DI> {
    pub closed spec fn underlying(&self) -> DI {
        self.underlying
    }

    pub fn new(underlying: DI) -> (display: Self)
        ensures
            display.underlying() == underlying,
    {
        Self { underlying }
    }
}

impl<DI: DisplayImpl> Display for DisplayDefault<DI> {
    open spec fn texts(&self) -> Texts {
        self.underlying().texts()
    }

    fn open(&mut self) -> (out: String) {
        self.underlying.raw_open()
    }

    fn print(&self) -> (out: String) {
        self.underlying.raw_print()
    }

    fn close(&mut self) -> (out: String) {
        self.underlying.raw_close()
    }

    fn display(&mut self) -> (out: String) {
        let mut out = self.open();
        out.append(self.print().as_str());
        out.append(self.close().as_str());
        out
    }
}

/// A display that can also print several times between opening and
/// closing.
#[derive(Debug)]
pub struct CountDisplay<DI: DisplayImpl> {
    underlying: DisplayDefault<DI>,
}

impl<DI: DisplayImpl> CountDisplay<DI> {
    pub closed spec fn underlying(&self) -> DisplayDefault<DI> {
        self.underlying
    }

    pub fn new(underlying: DI) -> (display: Self)
        ensures
            display.underlying().underlying() == underlying,
    {
        Self { underlying: DisplayDefault::new(underlying) }
    }

    /// Opens, prints `times` times and closes.
    pub fn multi_display(&mut self, times: u32) -> (out: String)
        ensures
            out@ == old(self).texts().open + repeat(old(self).texts().print, times as nat) + old(
                self,
            ).texts().close,
            final(self).texts() == old(self).texts(),
    {
        let mut out = self.open();
        let mut i: u32 = 0;
        while i < times
            invariant
                i <= times,
                self.texts() == old(self).texts(),
                out@ == old(self).texts().open + repeat(old(self).texts().print, i as nat),
            decreases times - i,
        {
            out.append(self.print().as_str());
            i = i + 1;
            assert(out@ =~= old(self).texts().open + repeat(old(self).texts().print, i as nat));
        }
        out.append(self.close().as_str());
        out
    }
}

impl<DI: DisplayImpl> Display for CountDisplay<DI> {
    open spec fn texts(&self) -> Texts {
        self.underlying().texts()
    }

    fn open(&mut self) -> (out: String) {
        self.underlying.open()
    }

    fn print(&self) -> (out: String) {
        self.underlying.print()
    }

    fn close(&mut self) -> (out: String) {
        self.underlying.close()
    }

    fn display(&mut self) -> (out: String) {
        self.underlying.display()
    }
}

/// Draws a string between bars, with a frame line above and below.
#[derive(Debug)]
pub struct StringDisplayImpl {
    string: String,
    width: u32,
}

impl StringDisplayImpl {
    pub closed spec fn string(&self) -> Seq<char> {
        self.string@
    }

    pub closed spec fn width(&self) -> nat {
        self.width as nat
    }

    pub fn new(string: &str) -> (imp: Self)
        ensures
            imp.string() == string@,
            imp.width() == 0,
    {
        Self { string: string.to_owned(), width: 0 }
    }

    pub fn print_line(&self) -> (out: String)
        ensures
            out@ == frame_line(self.width()),
    {
        frame_line_string(self.width)
    }
}

impl DisplayImpl for StringDisplayImpl {
    open spec fn texts(&self) -> Texts {
        string_texts(self.string(), self.width())
    }

    fn raw_open(&mut self) -> (out: String) {
        self.print_line()
    }

    fn raw_print(&self) -> (out: String) {
        let mut out = String::from_str("|");
        out.append(self.string.as_str());
        out.append("|\n");
        out
    }

    fn raw_close(&mut self) -> (out: String) {
        self.print_line()
    }
}

} // verus!
