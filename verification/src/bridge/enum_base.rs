//! The bridge with both sides as enums.

use crate::bridge::{frame_line, frame_line_string, string_texts, Texts};
use crate::text::repeat;
use vstd::prelude::*;
use vstd::string::*;

verus! {

/// What is shown: a plain display, or one that can print several times.
pub enum Display {
    Default(DisplayImpl),
    Count(CountDisplay),
}

/// A display that can also print several times between opening and
/// closing.
pub struct CountDisplay(Box<Display>);

/// How it is drawn: a string and the width of its frame lines.
pub enum DisplayImpl {
    String(String, u32),
}

impl CountDisplay {
    /// The display inside.
    pub closed spec fn inner(&self) -> Display {
        *self.0
    }

    /// Opens, prints `times` times and closes.
    pub fn multi_display(&mut self, times: u32) -> (out: String)
        ensures
            out@ == old(self).inner().texts().open + repeat(
                old(self).inner().texts().print,
                times as nat,
            ) + old(self).inner().texts().close,
            final(self).inner().texts() == old(self).inner().texts(),
    {
        let mut out = self.0.open();
        let mut i: u32 = 0;
        while i < times
            invariant
                i <= times,
                self.inner().texts() == old(self).inner().texts(),
                out@ == old(self).inner().texts().open + repeat(
                    old(self).inner().texts().print,
                    i as nat,
                ),
            decreases times - i,
        {
            out.append(self.0.print().as_str());
            i = i + 1;
            assert(out@ =~= old(self).inner().texts().open + repeat(
                old(self).inner().texts().print,
                i as nat,
            ));
        }
        out.append(self.0.close().as_str());
        out
    }
}

impl Display {
    /// The texts of the display: those of the implementation that it
    /// rests on.
    pub closed spec fn texts(&self) -> Texts
        decreases self,
    {
        match self {
            Display::Default(underlying) => underlying.texts(),
            Display::Count(underlying) => underlying.0.texts(),
        }
    }

    pub fn of_default(imp: DisplayImpl) -> (display: Self)
        ensures
            display == Display::Default(imp),
            display.texts() == imp.texts(),
    {
        Display::Default(imp)
    }

    pub fn of_count(imp: DisplayImpl) -> (display: Self)
        ensures
            display matches Display::Count(count) && count.inner() == Display::Default(imp),
            display.texts() == imp.texts(),
    {
        Display::Count(CountDisplay(Box::new(Self::of_default(imp))))
    }

    pub fn open(&mut self) -> (out: String)
        ensures
            out@ == old(self).texts().open,
            final(self).texts() == old(self).texts(),
        decreases *old(self),
    {
        match self {
            Display::Default(underlying) => underlying.raw_open(),
            Display::Count(underlying) => underlying.0.open(),
        }
    }

    pub fn print(&self) -> (out: String)
        ensures
            out@ == self.texts().print,
        decreases self,
    {
        match self {
            Display::Default(underlying) => underlying.raw_print(),
            Display::Count(underlying) => underlying.0.print(),
        }
    }

    pub fn close(&mut self) -> (out: String)
        ensures
            out@ == old(self).texts().close,
            final(self).texts() == old(self).texts(),
        decreases *old(self),
    {
        match self {
            Display::Default(underlying) => underlying.raw_close(),
            Display::Count(underlying) => underlying.0.close(),
        }
    }

    /// Opens, prints once and closes.
    pub fn display(&mut self) -> (out: String)
        ensures
            out@ == old(self).texts().open + old(self).texts().print + old(self).texts().close,
            final(self).texts() == old(self).texts(),
        decreases *old(self),
    {
        match self {
            Display::Default(_) => {
                let mut out = self.open();
                out.append(self.print().as_str());
                out.append(self.close().as_str());
                out
            },
            Display::Count(underlying) => underlying.0.display(),
        }
    }

    pub fn as_count_display_mut(&mut self) -> (count: Option<&mut CountDisplay>)
        ensures
            match *old(self) {
                Display::Count(before) => count matches Some(c) && *c == before && *final(self)
                    == Display::Count(*final(c)),
                Display::Default(_) => count is None && *final(self) == *old(self),
            },
    {
        match self {
            Display::Count(c) => Some(c),
            _ => None,
        }
    }
}

impl DisplayImpl {
    /// The texts: the string between bars, between two frame lines.
    pub open spec fn texts(&self) -> Texts {
        match self {
            DisplayImpl::String(string, width) => string_texts(string@, *width as nat),
        }
    }

    pub fn of_string(s: &str) -> (imp: Self)
        ensures
            imp matches DisplayImpl::String(string, width) && string@ == s@ && width == 0,
    {
        DisplayImpl::String(s.to_owned(), 0)
    }

    pub fn print_line(&self) -> (out: String)
        ensures
            out@ == self.texts().open,
            out@ == self.texts().close,
    {
        match self {
            DisplayImpl::String(_, width) => frame_line_string(*width),
        }
    }

    pub fn raw_open(&mut self) -> (out: String)
        ensures
            out@ == old(self).texts().open,
            *final(self) == *old(self),
    {
        match self {
            DisplayImpl::String(..) => self.print_line(),
        }
    }

    pub fn raw_print(&self) -> (out: String)
        ensures
            out@ == self.texts().print,
    {
        match self {
            DisplayImpl::String(string, _) => {
                let mut out = String::from_str("|");
                out.append(string.as_str());
                out.append("|\n");
                out
            },
        }
    }

    pub fn raw_close(&mut self) -> (out: String)
        ensures
            out@ == old(self).texts().close,
            *final(self) == *old(self),
    {
        self.print_line()
    }
}

} // verus!
