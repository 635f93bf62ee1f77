//! The two strategies as implementations of one trait, chosen at run time.

use crate::random::{gen_range_inclusive, thread_rng};
use crate::strategy::{gain, pick, row_sum};
use crate::text::{decimal, decimal_string};
use rand::rngs::ThreadRng;
use vstd::prelude::*;
use vstd::string::*;

verus! {

#[derive(Clone, Copy, Debug, PartialEq, Eq, Structural)]
pub enum Hand {
    Rock,
    Paper,
    Scissors,
}

impl Hand {
    /// The hand with the given number: 0 is rock, 1 is paper, every other
    /// number is scissors.
    pub open spec fn of_value(value: int) -> Hand {
        if value == 0 {
            Hand::Rock
        } else if value == 1 {
            Hand::Paper
        } else {
            Hand::Scissors
        }
    }

    /// Rock beats scissors, scissors beat paper, paper beats rock.
    pub open spec fn beats(self, other: Hand) -> bool {
        ||| self == Hand::Rock && other == Hand::Scissors
        ||| self == Hand::Scissors && other == Hand::Paper
        ||| self == Hand::Paper && other == Hand::Rock
    }

    pub fn get_hand(value: u8) -> (hand: Self)
        ensures
            hand == Hand::of_value(value as int),
    {
        if value == 0 {
            Hand::Rock
        } else if value == 1 {
            Hand::Paper
        } else {
            Hand::Scissors
        }
    }

    pub fn is_stronger_than(&self, other: Hand) -> (stronger: bool)
        ensures
            stronger == self.beats(other),
    {
        match (*self, other) {
            (Hand::Rock, Hand::Scissors) => true,
            (Hand::Scissors, Hand::Paper) => true,
            (Hand::Paper, Hand::Rock) => true,
            _ => false,
        }
    }
}

/// What a strategy remembers from one game to the next.
pub enum Memory {
    /// Whether the last game was won, and the hand that was played in it.
    Outcome { won: bool, prev_hand: Hand },
    /// The numbers of the previous and the current hand, and the table of
    /// how often each hand did well after each other hand.
    Table { prev_hand_value: u8, current_hand_value: u8, history: Seq<Seq<int>> },
}

/// The number of a hand: 0 for rock, 1 for paper, 2 for scissors.
pub open spec fn hand_value(hand: Hand) -> u8 {
    match hand {
        Hand::Rock => 0,
        Hand::Paper => 1,
        Hand::Scissors => 2,
    }
}

/// The entries of a table, row by row.
pub open spec fn table_of(history: [[u32; 3]; 3]) -> Seq<Seq<int>> {
    Seq::new(3, |i: int| Seq::new(3, |j: int| history[i][j] as int))
}

/// The entries of a table after an outcome was recorded in it, in a state
/// whose previous and current hands are `prev` and `cur`: `gain` is added
/// to each entry.
pub open spec fn table_after(history: [[u32; 3]; 3], prev: u8, cur: u8, win: bool) -> Seq<
    Seq<int>,
> {
    Seq::new(3, |i: int| Seq::new(3, |j: int| history[i][j] + gain(prev, cur, win, i, j)))
}

/// A way to choose hands that learns from the outcome of each game.
pub trait Strategy {
    /// The strategy is in a state from which it can go on.
    spec fn wf(&self) -> bool;

    /// What the strategy remembers.
    spec fn memory(&self) -> Memory;

    /// What the strategy remembers once it has played `hand`.
    spec fn played(&self, hand: Hand) -> Memory;

    /// What the strategy remembers once it has learnt whether it won.
    spec fn learnt(&self, win: bool) -> Memory;

    /// `hand` is one of the hands that the strategy may play next.
    spec fn may_play(&self, hand: Hand) -> bool;

    /// The strategy has room to record one more outcome.
    spec fn can_study(&self, win: bool) -> bool;

    fn next_hand(&mut self) -> (hand: Hand)
        requires
            old(self).wf(),
        ensures
            old(self).may_play(hand),
            final(self).memory() == old(self).played(hand),
            final(self).wf(),
    ;

    fn study(&mut self, win: bool)
        requires
            old(self).wf(),
            old(self).can_study(win),
        ensures
            final(self).memory() == old(self).learnt(win),
            final(self).wf(),
    ;
}

/// Repeats the hand that won; after any other game it plays a random hand.
#[derive(Clone, Debug)]
pub struct WinningStrategy {
    rng: ThreadRng,
    won: bool,
    prev_hand: Hand,
}

impl WinningStrategy {
    pub closed spec fn won(&self) -> bool {
        self.won
    }

    pub closed spec fn prev_hand(&self) -> Hand {
        self.prev_hand
    }

    /// The hand played when `draw` is drawn: the previous hand after a
    /// win, else the hand numbered `draw`.
    pub open spec fn hand_for(&self, draw: u32) -> Hand {
        if self.won() {
            self.prev_hand()
        } else {
            Hand::of_value(draw as int)
        }
    }

    pub fn new() -> (s: Self)
        ensures
            !s.won(),
            s.prev_hand() == Hand::Rock,
    {
        Self { rng: thread_rng(), won: false, prev_hand: Hand::Rock }
    }

    /// The next hand, where the generator has given `draw`.
    pub fn next_hand_with(&mut self, draw: u32) -> (hand: Hand)
        requires
            draw <= 2,
        ensures
            hand == old(self).hand_for(draw),
            final(self).prev_hand() == hand,
            final(self).won() == old(self).won(),
    {
        if !self.won {
            self.prev_hand = Hand::get_hand(draw as u8);
        }
        self.prev_hand
    }
}

impl Strategy for WinningStrategy {
    open spec fn wf(&self) -> bool {
        true
    }

    open spec fn memory(&self) -> Memory {
        Memory::Outcome { won: self.won(), prev_hand: self.prev_hand() }
    }

    /// The hand is remembered; the outcome of the last game stays.
    open spec fn played(&self, hand: Hand) -> Memory {
        Memory::Outcome { won: self.won(), prev_hand: hand }
    }

    /// The outcome is remembered; the hand stays.
    open spec fn learnt(&self, win: bool) -> Memory {
        Memory::Outcome { won: win, prev_hand: self.prev_hand() }
    }

    open spec fn may_play(&self, hand: Hand) -> bool {
        self.won() ==> hand == self.prev_hand()
    }

    open spec fn can_study(&self, win: bool) -> bool {
        true
    }

    /// Draws a number up to 2, unless the last game was won, and plays
    /// accordingly.
    fn next_hand(&mut self) -> (hand: Hand)
        ensures
            exists|draw: u32| draw <= 2 && hand == #[trigger] old(self).hand_for(draw),
            final(self).prev_hand() == hand,
            final(self).won() == old(self).won(),
    {
        let draw: u32 = if !self.won {
            gen_range_inclusive(&mut self.rng, 0, 2)
        } else {
            0
        };
        let hand = self.next_hand_with(draw);
        assert(hand == old(self).hand_for(draw));
        hand
    }

    fn study(&mut self, win: bool)
        ensures
            final(self).won() == win,
            final(self).prev_hand() == old(self).prev_hand(),
    {
        self.won = win;
    }
}

/// Keeps a table of how often each hand did well after each other hand,
/// and plays the likelier hands more often.
#[derive(Clone, Debug)]
pub struct ProbeStrategy {
    rng: ThreadRng,
    prev_hand_value: u8,
    current_hand_value: u8,
    history: [[u32; 3]; 3],
}

impl ProbeStrategy {
    pub closed spec fn prev_hand_value(&self) -> u8 {
        self.prev_hand_value
    }

    pub closed spec fn current_hand_value(&self) -> u8 {
        self.current_hand_value
    }

    pub closed spec fn history(&self) -> [[u32; 3]; 3] {
        self.history
    }

    /// The largest number that the next hand may be drawn with: the sum of
    /// the row of the current hand.
    pub open spec fn draw_limit(&self) -> int {
        row_sum(self.history()[self.current_hand_value() as int])
    }

    /// The number of the hand played when `draw` is drawn.
    pub open spec fn value_for(&self, draw: u32) -> u8 {
        pick(self.history()[self.current_hand_value() as int], draw)
    }

    pub fn new() -> (s: Self)
        ensures
            s.prev_hand_value() == 0,
            s.current_hand_value() == 0,
            forall|i: int, j: int| 0 <= i < 3 && 0 <= j < 3 ==> #[trigger] s.history()[i][j] == 1,
            s.wf(),
    {
        Self { rng: thread_rng(), prev_hand_value: 0, current_hand_value: 0, history: [[1; 3]; 3] }
    }

    pub fn get_sum(&self, hand_value: u8) -> (sum: u32)
        requires
            hand_value < 3,
            row_sum(self.history()[hand_value as int]) <= u32::MAX,
        ensures
            sum == row_sum(self.history()[hand_value as int]),
    {
        let row = &self.history[hand_value as usize];
        row[0] + row[1] + row[2]
    }

    /// The next hand, where the generator has given `draw`.
    pub fn next_hand_with(&mut self, draw: u32) -> (hand: Hand)
        requires
            old(self).wf(),
            draw <= old(self).draw_limit(),
        ensures
            hand == Hand::of_value(old(self).value_for(draw) as int),
            final(self).prev_hand_value() == old(self).current_hand_value(),
            final(self).current_hand_value() == old(self).value_for(draw),
            final(self).history() == old(self).history(),
            final(self).wf(),
    {
        let row = &self.history[self.current_hand_value as usize];
        let hand_value: u8 = if draw < row[0] {
            0
        } else if draw < row[0] + row[1] {
            1
        } else {
            2
        };
        self.prev_hand_value = self.current_hand_value;
        self.current_hand_value = hand_value;
        Hand::get_hand(hand_value)
    }
}

impl Strategy for ProbeStrategy {
    /// Both hand numbers are below 3, and no row of the table sums to more
    /// than a `u32` holds.
    open spec fn wf(&self) -> bool {
        &&& self.prev_hand_value() < 3
        &&& self.current_hand_value() < 3
        &&& forall|i: int| 0 <= i < 3 ==> row_sum(#[trigger] self.history()[i]) <= u32::MAX
    }

    open spec fn memory(&self) -> Memory {
        Memory::Table {
            prev_hand_value: self.prev_hand_value(),
            current_hand_value: self.current_hand_value(),
            history: table_of(self.history()),
        }
    }

    /// The current hand becomes the previous one, and the hand played
    /// becomes the current one; the table stays.
    open spec fn played(&self, hand: Hand) -> Memory {
        Memory::Table {
            prev_hand_value: self.current_hand_value(),
            current_hand_value: hand_value(hand),
            history: table_of(self.history()),
        }
    }

    /// A win counts for the current hand, a loss for each of the two
    /// others, all in the row of the previous hand; the hands stay.
    open spec fn learnt(&self, win: bool) -> Memory {
        Memory::Table {
            prev_hand_value: self.prev_hand_value(),
            current_hand_value: self.current_hand_value(),
            history: table_after(
                self.history(),
                self.prev_hand_value(),
                self.current_hand_value(),
                win,
            ),
        }
    }

    open spec fn may_play(&self, hand: Hand) -> bool {
        exists|draw: u32|
            draw <= self.draw_limit() && hand == Hand::of_value(
                #[trigger] self.value_for(draw) as int,
            )
    }

    open spec fn can_study(&self, win: bool) -> bool {
        row_sum(self.history()[self.prev_hand_value() as int]) + (if win {
            1int
        } else {
            2int
        }) <= u32::MAX
    }

    /// Draws a number up to `draw_limit` and plays accordingly.
    fn next_hand(&mut self) -> (hand: Hand)
        ensures
            final(self).prev_hand_value() == old(self).current_hand_value(),
            hand == Hand::of_value(final(self).current_hand_value() as int),
            final(self).history() == old(self).history(),
    {
        let sum = self.get_sum(self.current_hand_value);
        let draw = gen_range_inclusive(&mut self.rng, 0, sum);
        let hand = self.next_hand_with(draw);
        assert(hand == Hand::of_value(old(self).value_for(draw) as int));
        hand
    }

    /// A win counts for the current hand, a loss for each of the two
    /// others, all in the row of the previous hand.
    fn study(&mut self, win: bool)
        ensures
            final(self).prev_hand_value() == old(self).prev_hand_value(),
            final(self).current_hand_value() == old(self).current_hand_value(),
            forall|i: int, j: int|
                0 <= i < 3 && 0 <= j < 3 ==> #[trigger] final(self).history()[i][j] == old(
                    self,
                ).history()[i][j] + gain(
                    old(self).prev_hand_value(),
                    old(self).current_hand_value(),
                    win,
                    i,
                    j,
                ),
    {
        let ghost before = self.history;
        let prev = self.prev_hand_value as usize;
        let cur = self.current_hand_value;
        if win {
            self.history[prev][cur as usize] += 1;
        } else {
            self.history[prev][((cur + 1) % 3) as usize] += 1;
            self.history[prev][((cur + 2) % 3) as usize] += 1;
        }
        assert forall|i: int, j: int| 0 <= i < 3 && 0 <= j < 3 implies #[trigger] self.history[i][j]
            == before[i][j] + gain(prev as u8, cur, win, i, j) by {}
        assert forall|i: int| 0 <= i < 3 implies row_sum(#[trigger] self.history[i])
            <= u32::MAX by {
            assert(row_sum(before[i]) <= u32::MAX);
            assert(self.history[i][0] == before[i][0] + gain(prev as u8, cur, win, i, 0));
            assert(self.history[i][1] == before[i][1] + gain(prev as u8, cur, win, i, 1));
            assert(self.history[i][2] == before[i][2] + gain(prev as u8, cur, win, i, 2));
        }
        assert(table_of(self.history) =~~= table_after(before, prev as u8, cur, win));
    }
}

/// A player and the strategy it plays by. The strategy may be of a type
/// known at compile time, or a `dyn Strategy` chosen at run time.
pub struct Player<S: Strategy + ?Sized = dyn Strategy> {
    name: String,
    strategy: Box<S>,
    win_count: u32,
    lose_count: u32,
    game_count: u32,
}

impl<S: Strategy + ?Sized> Player<S> {
    pub closed spec fn name(&self) -> Seq<char> {
        self.name@
    }

    pub closed spec fn strategy(&self) -> Box<S> {
        self.strategy
    }

    pub closed spec fn win_count(&self) -> nat {
        self.win_count as nat
    }

    pub closed spec fn lose_count(&self) -> nat {
        self.lose_count as nat
    }

    pub closed spec fn game_count(&self) -> nat {
        self.game_count as nat
    }

    /// The line that describes a player: name, then games, wins and
    /// losses in decimal.
    pub open spec fn spec_to_string(&self) -> Seq<char> {
        "["@ + self.name() + ": "@ + decimal(self.game_count()) + " games, "@ + decimal(
            self.win_count(),
        ) + " win, "@ + decimal(self.lose_count()) + " lose]"@
    }

    pub fn new(name: &str, strategy: Box<S>) -> (player: Self)
        ensures
            player.name() == name@,
            player.strategy() == strategy,
            player.win_count() == 0,
            player.lose_count() == 0,
            player.game_count() == 0,
    {
        Self { name: name.to_owned(), strategy, win_count: 0, lose_count: 0, game_count: 0 }
    }

    pub fn next_hand(&mut self) -> (hand: Hand)
        requires
            old(self).strategy().wf(),
        ensures
            old(self).strategy().may_play(hand),
            final(self).strategy().memory() == old(self).strategy().played(hand),
            final(self).strategy().wf(),
            final(self).name() == old(self).name(),
            final(self).win_count() == old(self).win_count(),
            final(self).lose_count() == old(self).lose_count(),
            final(self).game_count() == old(self).game_count(),
    {
        self.strategy.next_hand()
    }

    pub fn win(&mut self)
        requires
            old(self).strategy().wf(),
            old(self).strategy().can_study(true),
            old(self).win_count() < u32::MAX,
            old(self).game_count() < u32::MAX,
        ensures
            final(self).strategy().memory() == old(self).strategy().learnt(true),
            final(self).strategy().wf(),
            final(self).name() == old(self).name(),
            final(self).win_count() == old(self).win_count() + 1,
            final(self).lose_count() == old(self).lose_count(),
            final(self).game_count() == old(self).game_count() + 1,
    {
        self.strategy.study(true);
        self.win_count += 1;
        self.game_count += 1;
    }

    pub fn lose(&mut self)
        requires
            old(self).strategy().wf(),
            old(self).strategy().can_study(false),
            old(self).lose_count() < u32::MAX,
            old(self).game_count() < u32::MAX,
        ensures
            final(self).strategy().memory() == old(self).strategy().learnt(false),
            final(self).strategy().wf(),
            final(self).name() == old(self).name(),
            final(self).win_count() == old(self).win_count(),
            final(self).lose_count() == old(self).lose_count() + 1,
            final(self).game_count() == old(self).game_count() + 1,
    {
        self.strategy.study(false);
        self.lose_count += 1;
        self.game_count += 1;
    }

    pub fn even(&mut self)
        requires
            old(self).game_count() < u32::MAX,
        ensures
            final(self).strategy() == old(self).strategy(),
            final(self).name() == old(self).name(),
            final(self).win_count() == old(self).win_count(),
            final(self).lose_count() == old(self).lose_count(),
            final(self).game_count() == old(self).game_count() + 1,
    {
        self.game_count += 1;
    }

    /// The player's line, as `[name: g games, w win, l lose]`.
    pub fn to_string(&self) -> (out: String)
        ensures
            out@ == self.spec_to_string(),
    {
        let mut out = String::from_str("[");
        out.append(self.name.as_str());
        out.append(": ");
        out.append(decimal_string(self.game_count as u64).as_str());
        out.append(" games, ");
        out.append(decimal_string(self.win_count as u64).as_str());
        out.append(" win, ");
        out.append(decimal_string(self.lose_count as u64).as_str());
        out.append(" lose]");
        out
    }
}

} // verus!
