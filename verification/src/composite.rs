//! Files and directories that are handled alike.

use crate::text::{decimal, decimal_string};
use vstd::prelude::*;
use vstd::string::*;

pub mod enum_base;
pub mod generic_base;

verus! {

/// How an entry is written: its name, and its size in parentheses.
pub open spec fn entry_label(name: Seq<char>, size: nat) -> Seq<char> {
    name + " ("@ + decimal(size) + ")"@
}

/// The line of an entry in a listing: the path of the directory that holds
/// it, a slash, and the entry as it is written.
pub open spec fn entry_line(prefix: Seq<char>, name: Seq<char>, size: nat) -> Seq<char> {
    prefix + "/"@ + entry_label(name, size) + "\n"@
}

/// The path of an entry: the path of the directory that holds it, a slash,
/// and its name.
pub open spec fn entry_path(prefix: Seq<char>, name: Seq<char>) -> Seq<char> {
    prefix + "/"@ + name
}

/// Writes an entry as `name (size)`.
pub fn entry_label_string(name: &str, size: usize) -> (out: String)
    ensures
        out@ == entry_label(name@, size as nat),
{
    let mut out = String::from_str(name);
    out.append(" (");
    out.append(decimal_string(size as u64).as_str());
    out.append(")");
    out
}

/// Writes the line of an entry in a listing.
pub fn entry_line_string(prefix: &str, name: &str, size: usize) -> (out: String)
    ensures
        out@ == entry_line(prefix@, name@, size as nat),
{
    let mut out = String::from_str(prefix);
    out.append("/");
    out.append(entry_label_string(name, size).as_str());
    out.append("\n");
    out
}

/// Writes the path of an entry.
pub fn entry_path_string(prefix: &str, name: &str) -> (out: String)
    ensures
        out@ == entry_path(prefix@, name@),
{
    let mut out = String::from_str(prefix);
    out.append("/");
    out.append(name);
    out
}

} // verus!
