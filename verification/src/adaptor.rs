//! A banner, and an adaptor that offers it as something printable.

use vstd::prelude::*;
use vstd::string::*;

pub mod enum_base;
pub mod trait_base;

verus! {

/// Something that can be printed in a weak and in a strong form.
pub trait Print {
    /// The line that `print_weak` gives.
    spec fn weak_text(&self) -> Seq<char>;

    /// The line that `print_strong` gives.
    spec fn strong_text(&self) -> Seq<char>;

    fn print_weak(&self) -> (out: String)
        ensures
            out@ == self.weak_text(),
    ;

    fn print_strong(&self) -> (out: String)
        ensures
            out@ == self.strong_text(),
    ;
}

/// A piece of text that can be shown with two kinds of decoration.
#[derive(Debug)]
pub struct Banner(String);

impl Banner {
    /// The text of the banner.
    pub closed spec fn text(&self) -> Seq<char> {
        self.0@
    }

    pub fn new(s: &str) -> (banner: Self)
        ensures
            banner.text() == s@,
    {
        Self(s.to_owned())
    }

    /// The text between parentheses, as a line.
    pub fn show_with_paren(&self) -> (out: String)
        ensures
            out@ == "("@ + self.text() + ")\n"@,
    {
        let mut out = String::from_str("(");
        out.append(self.0.as_str());
        out.append(")\n");
        out
    }

    /// The text between asterisks, as a line.
    pub fn show_with_aster(&self) -> (out: String)
        ensures
            out@ == "*"@ + self.text() + "*\n"@,
    {
        let mut out = String::from_str("*");
        out.append(self.0.as_str());
        out.append("*\n");
        out
    }
}

/// A banner in the guise of a `Print`.
#[derive(Debug)]
pub struct PrintBanner(Banner);

impl PrintBanner {
    pub closed spec fn banner(&self) -> Banner {
        self.0
    }

    pub fn new(banner: Banner) -> (print_banner: Self)
        ensures
            print_banner.banner() == banner,
    {
        Self(banner)
    }
}

impl Print for PrintBanner {
    open spec fn weak_text(&self) -> Seq<char> {
        "("@ + self.banner().text() + ")\n"@
    }

    open spec fn strong_text(&self) -> Seq<char> {
        "*"@ + self.banner().text() + "*\n"@
    }

    fn print_weak(&self) -> (out: String) {
        self.0.show_with_paren()
    }

    fn print_strong(&self) -> (out: String) {
        self.0.show_with_aster()
    }
}

} // verus!
