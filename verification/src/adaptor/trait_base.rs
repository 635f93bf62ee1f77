//! The adaptor behind a trait of its own, for use as a trait object.

use crate::adaptor::Banner;
use vstd::prelude::*;
use vstd::string::*;

verus! {

/// Something that can be printed in a weak and in a strong form.
pub trait Print {
    /// The line that `print_weak` gives.
    spec fn weak_text(&self) -> Seq<char>;

    /// The line that `print_strong` gives.
    spec fn strong_text(&self) -> Seq<char>;

    fn print_weak(&self) -> (out: String)
        ensures
            out@ == self.weak_text(),
    ;

    fn print_strong(&self) -> (out: String)
        ensures
            out@ == self.strong_text(),
    ;
}

/// A banner in the guise of a `Print`.
#[derive(Debug)]
pub struct PrintBanner(Banner);

impl PrintBanner {
    pub closed spec fn banner(&self) -> Banner {
        self.0
    }

    pub fn new(banner: Banner) -> (print_banner: Self)
        ensures
            print_banner.banner() == banner,
    {
        Self(banner)
    }
}

impl Print for PrintBanner {
    open spec fn weak_text(&self) -> Seq<char> {
        "("@ + self.banner().text() + ")\n"@
    }

    open spec fn strong_text(&self) -> Seq<char> {
        "*"@ + self.banner().text() + "*\n"@
    }

    fn print_weak(&self) -> (out: String) {
        self.0.show_with_paren()
    }

    fn print_strong(&self) -> (out: String) {
        self.0.show_with_aster()
    }
}

} // verus!
