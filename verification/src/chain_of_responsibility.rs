//! Troubles, handed along a chain of supports until one resolves them.

use crate::text::{decimal, decimal_string};
use vstd::prelude::*;
use vstd::string::*;

pub mod enum_base;
pub mod trait_base;

verus! {

/// A trouble, known by its number.
#[derive(Debug)]
pub struct Trouble {
    number: u32,
}

impl Trouble {
    /// The number of the trouble.
    pub closed spec fn spec_number(&self) -> u32 {
        self.number
    }

    /// How a trouble is written: `[Trouble n]`.
    pub open spec fn label(&self) -> Seq<char> {
        "[Trouble "@ + decimal(self.spec_number() as nat) + "]"@
    }

    pub fn new(number: u32) -> (trouble: Self)
        ensures
            trouble.spec_number() == number,
    {
        Self { number }
    }

    pub fn number(&self) -> (number: u32)
        ensures
            number == self.spec_number(),
    {
        self.number
    }

    /// The trouble as it is written.
    pub fn to_string(&self) -> (out: String)
        ensures
            out@ == self.label(),
    {
        let mut out = String::from_str("[Trouble ");
        out.append(decimal_string(self.number as u64).as_str());
        out.append("]");
        out
    }
}

/// How a support of the given kind is written: `[name@kind]`.
pub open spec fn support_label(name: Seq<char>, kind: Seq<char>) -> Seq<char> {
    "["@ + name + "@"@ + kind + "]"@
}

/// The line that reports that the trouble was resolved by the support.
pub open spec fn done_line(trouble: Seq<char>, support: Seq<char>) -> Seq<char> {
    trouble + " is resolved by "@ + support + ".\n"@
}

/// The line that reports that nobody resolved the trouble.
pub open spec fn fail_line(trouble: Seq<char>) -> Seq<char> {
    trouble + " cannot be resolved.\n"@
}

/// Writes a support as `[name@kind]`.
pub fn support_label_string(name: &str, kind: &str) -> (out: String)
    ensures
        out@ == support_label(name@, kind@),
{
    let mut out = String::from_str("[");
    out.append(name);
    out.append("@");
    out.append(kind);
    out.append("]");
    out
}

/// Writes the line that reports that the trouble was resolved.
pub fn done_line_string(trouble: &Trouble, support: &str) -> (out: String)
    ensures
        out@ == done_line(trouble.label(), support@),
{
    let mut out = trouble.to_string();
    out.append(" is resolved by ");
    out.append(support);
    out.append(".\n");
    out
}

/// Writes the line that reports that nobody resolved the trouble.
pub fn fail_line_string(trouble: &Trouble) -> (out: String)
    ensures
        out@ == fail_line(trouble.label()),
{
    let mut out = trouble.to_string();
    out.append(" cannot be resolved.\n");
    out
}

} // verus!
