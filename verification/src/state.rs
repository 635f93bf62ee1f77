//! A safe whose behaviour depends on whether it is day or night.

use crate::text::{decimal, decimal_string};
use vstd::prelude::*;
use vstd::string::*;

pub mod enum_base;
pub mod trait_base;

verus! {

/// The first hour of the day shift.
pub const DAY_BEGINS: u32 = 9;

/// The first hour after the day shift.
pub const DAY_ENDS: u32 = 17;

/// The hours that one run goes through are 0 up to this one.
pub const LAST_HOUR: u32 = 24;

/// It is day from 9 o'clock until just before 17 o'clock.
pub open spec fn is_daytime(hour: u32) -> bool {
    DAY_BEGINS <= hour < DAY_ENDS
}

/// Tells whether `hour` lies in the day shift.
pub fn daytime(hour: u32) -> (day: bool)
    ensures
        day == is_daytime(hour),
{
    DAY_BEGINS <= hour && hour < DAY_ENDS
}

/// The message that announces the hour.
pub open spec fn hour_message(hour: u32) -> Seq<char> {
    "時刻は"@ + decimal(hour as nat) + "時になりました。"@
}

/// The message that announces the state with the given label.
pub open spec fn state_message(label: Seq<char>) -> Seq<char> {
    "現在の状態は"@ + label + "です。"@
}

/// A line of the log: the label of the state, a colon and the message.
pub open spec fn log_line(label: Seq<char>, msg: Seq<char>) -> Seq<char> {
    label + ":"@ + msg + "\n"@
}

/// Writes the message that announces the hour.
pub fn hour_message_string(hour: u32) -> (out: String)
    ensures
        out@ == hour_message(hour),
{
    let mut out = String::from_str("時刻は");
    out.append(decimal_string(hour as u64).as_str());
    out.append("時になりました。");
    out
}

/// Writes the message that announces the state with the given label.
pub fn state_message_string(label: &str) -> (out: String)
    ensures
        out@ == state_message(label@),
{
    let mut out = String::from_str("現在の状態は");
    out.append(label);
    out.append("です。");
    out
}

/// Writes a line of the log.
pub fn log_line_string(label: &str, msg: &str) -> (out: String)
    ensures
        out@ == log_line(label@, msg@),
{
    let mut out = String::from_str(label);
    out.append(":");
    out.append(msg);
    out.append("\n");
    out
}

} // verus!
