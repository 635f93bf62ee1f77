//! Displays (what is shown, and how often) kept apart from display
//! implementations (how a line is drawn), joined by a bridge.

use crate::text::{repeat, repeat_str};
use vstd::prelude::*;
use vstd::string::*;

pub mod enum_base;
pub mod generic_base;

verus! {

/// The three texts of a display: what opens it, what one printing gives,
/// and what closes it.
pub struct Texts {
    pub open: Seq<char>,
    pub print: Seq<char>,
    pub close: Seq<char>,
}

/// The frame line of the given width: dashes between two plus signs.
pub open spec fn frame_line(width: nat) -> Seq<char> {
    "+"@ + repeat("-"@, width) + "+\n"@
}

/// The texts of a string display: the string between bars, between two
/// frame lines.
pub open spec fn string_texts(string: Seq<char>, width: nat) -> Texts {
    Texts {
        open: frame_line(width),
        print: "|"@ + string + "|\n"@,
        close: frame_line(width),
    }
}

/// Draws the frame line of the given width.
pub fn frame_line_string(width: u32) -> (out: String)
    ensures
        out@ == frame_line(width as nat),
{
    let mut out = String::from_str("+");
    out.append(repeat_str("-", width as usize).as_str());
    out.append("+\n");
    out
}

/// What is shown. None of the operations changes the texts.
pub trait Display {
    spec fn texts(&self) -> Texts;

    fn open(&mut self) -> (out: String)
        ensures
            out@ == old(self).texts().open,
            final(self).texts() == old(self).texts(),
    ;

    fn print(&self) -> (out: String)
        ensures
            out@ == self.texts().print,
    ;

    fn close(&mut self) -> (out: String)
        ensures
            out@ == old(self).texts().close,
            final(self).texts() == old(self).texts(),
    ;

    /// Opens, prints once and closes.
    fn display(&mut self) -> (out: String)
        ensures
            out@ == old(self).texts().open + old(self).texts().print + old(self).texts().close,
            final(self).texts() == old(self).texts(),
    ;
}

/// How it is drawn. None of the operations changes the texts.
pub trait DisplayImpl {
    spec fn texts(&self) -> Texts;

    fn raw_open(&mut self) -> (out: String)
        ensures
            out@ == old(self).texts().open,
            final(self).texts() == old(self).texts(),
    ;

    fn raw_print(&self) -> (out: String)
        ensures
            out@ == self.texts().print,
    ;

    fn raw_close(&mut self) -> (out: String)
        ensures
            out@ == old(self).texts().close,
            final(self).texts() == old(self).texts(),
    ;
}

/// The plain display: it hands every operation to its implementation,
/// which may be of a type known at compile time or a `dyn DisplayImpl`.
pub struct DisplayDefault<DI: DisplayImpl + ?Sized = dyn DisplayImpl> {
    underlying: Box<DI>,
}

impl<DI: DisplayImpl + ?Sized> DisplayDefault<DI> {
    pub closed spec fn underlying(&self) -> Box<DI> {
        self.underlying
    }

    pub fn new(underlying: Box<DI>) -> (display: Self)
        ensures
            display.underlying() == underlying,
    {
        Self { underlying }
    }
}

impl<DI: DisplayImpl + ?Sized> Display for DisplayDefault<DI> {
    open spec fn texts(&self) -> Texts {
        self.underlying().texts()
    }

    fn open(&mut self) -> (out: String) {
        self.underlying.raw_open()
    }

    fn print(&self) -> (out: String) {
        self.underlying.raw_print()
    }

    fn close(&mut self) -> (out: String) {
        self.underlying.raw_close()
    }

    fn display(&mut self) -> (out: String) {
        let mut out = self.open();
        out.append(self.print().as_str());
        out.append(self.close().as_str());
        out
    }
}

/// A display that can also print several times between opening and
/// closing.
pub struct CountDisplay<DI: DisplayImpl + ?Sized = dyn DisplayImpl> {
    underlying: DisplayDefault<DI>,
}

impl<DI: DisplayImpl + ?Sized> CountDisplay<DI> {
    pub closed spec fn underlying(&self) -> DisplayDefault<DI> {
        self.underlying
    }

    pub fn new(underlying: Box<DI>) -> (display: Self)
        ensures
            display.underlying().underlying() == underlying,
    {
        Self { underlying: DisplayDefault::new(underlying) }
    }

    /// Opens, prints `times` times and closes.
    pub fn multi_display(&mut self, times: u32) -> (out: String)
        ensures
            out@ == old(self).texts().open + repeat(old(self).texts().print, times as nat) + old(
                self,
            ).texts().close,
            final(self).texts() == old(self).texts(),
    {
        let mut out = self.open();
        let mut i: u32 = 0;
        while i < times
            invariant
                i <= times,
                self.texts() == old(self).texts(),
                out@ == old(self).texts().open + repeat(old(self).texts().print, i as nat),
            decreases times - i,
        {
            out.append(self.print().as_str());
            i = i + 1;
            assert(out@ =~= old(self).texts().open + repeat(old(self).texts().print, i as nat));
        }
        out.append(self.close().as_str());
        out
    }
}

impl<DI: DisplayImpl + ?Sized> Display for CountDisplay<DI> {
    open spec fn texts(&self) -> Texts {
        self.underlying().texts()
    }

    fn open(&mut self) -> (out: String) {
        self.underlying.open()
    }

    fn print(&self) -> (out: String) {
        self.underlying.print()
    }

    fn close(&mut self) -> (out: String) {
        self.underlying.close()
    }

    fn display(&mut self) -> (out: String) {
        self.underlying.display()
    }
}

/// Draws a string between bars, with a frame line above and below.
pub struct StringDisplayImpl {
    string: String,
    width: u32,
}

impl StringDisplayImpl {
    pub closed spec fn string(&self) -> Seq<char> {
        self.string@
    }

    pub closed spec fn width(&self) -> nat {
        self.width as nat
    }

    pub fn new(string: &str) -> (imp: Self)
        ensures
            imp.string() == string@,
            imp.width() == 0,
    {
        Self { string: string.to_owned(), width: 0 }
    }

    pub fn print_line(&self) -> (out: String)
        ensures
            out@ == frame_line(self.width()),
    {
        frame_line_string(self.width)
    }
}

impl DisplayImpl for StringDisplayImpl {
    open spec fn texts(&self) -> Texts {
        string_texts(self.string(), self.width())
    }

    fn raw_open(&mut self) -> (out: String) {
        self.print_line()
    }

    fn raw_print(&self) -> (out: String) {
        let mut out = String::from_str("|");
        out.append(self.string.as_str());
        out.append("|\n");
        out
    }

    fn raw_close(&mut self) -> (out: String) {
        self.print_line()
    }
}

} // verus!
