//! Rock-paper-scissors hands, and two ways to choose the next one.

use vstd::prelude::*;
use vstd::string::*;

pub mod enum_base;
pub mod trait_base;

verus! {

/// A hand of the game, under its Japanese name.
#[derive(Clone, Debug, PartialEq, Eq, Structural)]
pub enum Hand {
    GUU,
    CHO,
    PAA,
}

impl Hand {
    /// The number of a hand: 0 for `GUU`, 1 for `CHO`, 2 for `PAA`.
    pub open spec fn value(self) -> int {
        match self {
            Hand::GUU => 0,
            Hand::CHO => 1,
            Hand::PAA => 2,
        }
    }

    /// The hand with the given number.
    pub open spec fn of_value(value: int) -> Hand {
        if value == 0 {
            Hand::GUU
        } else if value == 1 {
            Hand::CHO
        } else {
            Hand::PAA
        }
    }

    /// The outcome of `self` against `h`: 0 for a draw, 1 where `self`
    /// wins (the hand that follows it in the cycle is beaten), -1 where it
    /// loses.
    pub open spec fn outcome(self, h: Hand) -> int {
        if self == h {
            0
        } else if (self.value() + 1) % 3 == h.value() {
            1
        } else {
            -1
        }
    }

    /// The written name of a hand.
    pub open spec fn spec_name(self) -> Seq<char> {
        match self {
            Hand::GUU => "グー"@,
            Hand::CHO => "チョキ"@,
            Hand::PAA => "パー"@,
        }
    }

    pub fn name(&self) -> (s: &'static str)
        ensures
            s@ == self.spec_name(),
    {
        match self {
            Hand::GUU => "グー",
            Hand::CHO => "チョキ",
            Hand::PAA => "パー",
        }
    }

    pub fn get_hand(value: u32) -> (hand: Self)
        requires
            value <= 2,
        ensures
            hand == Hand::of_value(value as int),
            hand.value() == value,
    {
        if value == 0 {
            Hand::GUU
        } else if value == 1 {
            Hand::CHO
        } else {
            Hand::PAA
        }
    }

    pub fn hand_value(&self) -> (value: i32)
        ensures
            value == self.value(),
    {
        match self {
            Hand::GUU => 0,
            Hand::CHO => 1,
            Hand::PAA => 2,
        }
    }

    pub fn fight(&self, h: Hand) -> (result: i32)
        ensures
            result == self.outcome(h),
    {
        if *self == h {
            0
        } else if (self.hand_value() + 1) % 3 == h.hand_value() {
            1
        } else {
            -1
        }
    }

    pub fn is_stronger_than(&self, h: Hand) -> (stronger: bool)
        ensures
            stronger == (self.outcome(h) == 1),
    {
        self.fight(h) == 1
    }

    pub fn is_weaker_than(&self, h: Hand) -> (weaker: bool)
        ensures
            weaker == (self.outcome(h) == -1),
    {
        self.fight(h) == -1
    }

    /// The name of the hand, as an owned string.
    pub fn to_string(&self) -> (out: String)
        ensures
            out@ == self.spec_name(),
    {
        String::from_str(self.name())
    }
}

/// The sum of one row of the table of a probing strategy.
pub open spec fn row_sum(row: [u32; 3]) -> int {
    row[0] + row[1] + row[2]
}

/// The column that a bet falls into: the row is cut into three stretches
/// as long as its entries, and bets past the second stretch count for the
/// third.
pub open spec fn pick(row: [u32; 3], bet: u32) -> u8 {
    if bet < row[0] {
        0
    } else if bet < row[0] + row[1] {
        1
    } else {
        2
    }
}

/// How much `study` adds to the entry in row `i`, column `j`, in a state
/// whose previous and current hands are `prev` and `cur`: a win counts for
/// the current hand, a loss for each of the two others, all in the row of
/// the previous hand.
pub open spec fn gain(prev: u8, cur: u8, win: bool, i: int, j: int) -> int {
    if i == prev && (if win {
        j == cur
    } else {
        j != cur
    }) {
        1
    } else {
        0
    }
}

} // verus!
