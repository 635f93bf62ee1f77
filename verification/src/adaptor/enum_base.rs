//! The adaptor as an enum with one variant for each adapted type.

use crate::adaptor::Banner;
use vstd::prelude::*;
use vstd::string::*;

verus! {

pub enum Print {
    PrintBanner(Banner),
}

impl Print {
    /// The line that `print_weak` gives: the banner between parentheses.
    pub open spec fn weak_text(&self) -> Seq<char> {
        match self {
            Print::PrintBanner(b) => "("@ + b.text() + ")\n"@,
        }
    }

    /// The line that `print_strong` gives: the banner between asterisks.
    pub open spec fn strong_text(&self) -> Seq<char> {
        match self {
            Print::PrintBanner(b) => "*"@ + b.text() + "*\n"@,
        }
    }

    pub fn of_print(banner: Banner) -> (print: Self)
        ensures
            print == Print::PrintBanner(banner),
    {
        Print::PrintBanner(banner)
    }

    pub fn print_weak(&self) -> (out: String)
        ensures
            out@ == self.weak_text(),
    {
        match self {
            Print::PrintBanner(b) => b.show_with_paren(),
        }
    }

    pub fn print_strong(&self) -> (out: String)
        ensures
            out@ == self.strong_text(),
    {
        match self {
            Print::PrintBanner(b) => b.show_with_aster(),
        }
    }
}

} // verus!
