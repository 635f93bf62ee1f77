//! Number generators that tell their observers of every new number.

use crate::text::{decimal, decimal_string, repeat, repeat_str};
use vstd::prelude::*;
use vstd::string::*;

pub mod enum_base;
pub mod trait_base;

verus! {

/// How many numbers one run of a generator produces.
pub const ROUNDS: u32 = 20;

/// The largest number that a generator produces.
pub const LARGEST: u32 = 49;

/// The line of a digit observer: the number in decimal.
pub open spec fn digit_line(number: u32) -> Seq<char> {
    "DigitObserver:"@ + decimal(number as nat) + "\n"@
}

/// The line of a graph observer: as many asterisks as the number says.
pub open spec fn graph_line(number: u32) -> Seq<char> {
    "GraphObserver:"@ + repeat("*"@, number as nat) + "\n"@
}

/// Writes the line of a digit observer.
pub fn digit_line_string(number: u32) -> (out: String)
    ensures
        out@ == digit_line(number),
{
    let mut out = String::from_str("DigitObserver:");
    out.append(decimal_string(number as u64).as_str());
    out.append("\n");
    out
}

/// Writes the line of a graph observer.
pub fn graph_line_string(number: u32) -> (out: String)
    ensures
        out@ == graph_line(number),
{
    let mut out = String::from_str("GraphObserver:");
    out.append(repeat_str("*", number as usize).as_str());
    out.append("\n");
    out
}

} // verus!
