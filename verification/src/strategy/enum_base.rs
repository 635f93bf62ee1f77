//! The two strategies as the variants of one enum.

use crate::random::{gen_range_inclusive, thread_rng};
use crate::strategy::{gain, pick, row_sum};
use crate::text::{decimal, decimal_string};
use rand::rngs::ThreadRng;
use vstd::prelude::*;
use vstd::string::*;

verus! {

#[derive(Debug, Clone, Copy, PartialEq, Eq, Structural)]
pub enum Hand {
    Rock,
    Paper,
    Scissors,
}

impl Hand {
    /// The hand with the given number: 0 is rock, 1 is paper, every other
    /// number is scissors.
    pub open spec fn of_value(value: int) -> Hand {
        if value == 0 {
            Hand::Rock
        } else if value == 1 {
            Hand::Paper
        } else {
            Hand::Scissors
        }
    }

    /// Rock beats scissors, scissors beat paper, paper beats rock.
    pub open spec fn beats(self, other: Hand) -> bool {
        ||| self == Hand::Rock && other == Hand::Scissors
        ||| self == Hand::Scissors && other == Hand::Paper
        ||| self == Hand::Paper && other == Hand::Rock
    }

    pub fn get_hand(value: u8) -> (hand: Self)
        ensures
            hand == Hand::of_value(value as int),
    {
        if value == 0 {
            Hand::Rock
        } else if value == 1 {
            Hand::Paper
        } else {
            Hand::Scissors
        }
    }

    pub fn is_stronger_than(&self, other: Hand) -> (stronger: bool)
        ensures
            stronger == self.beats(other),
    {
        match (*self, other) {
            (Hand::Rock, Hand::Scissors) => true,
            (Hand::Scissors, Hand::Paper) => true,
            (Hand::Paper, Hand::Rock) => true,
            _ => false,
        }
    }
}

#[derive(Debug)]
pub enum Strategy {
    Winning { rng: ThreadRng, won: bool, prev_hand: Hand },
    Probe { rng: ThreadRng, prev_hand_value: u8, current_hand_value: u8, history: [[u32; 3]; 3] },
}

impl Strategy {
    /// Both hand numbers of a probing strategy are below 3, and no row of
    /// its table sums to more than a `u32` holds.
    pub open spec fn wf(&self) -> bool {
        match self {
            Strategy::Winning { .. } => true,
            Strategy::Probe { prev_hand_value, current_hand_value, history, .. } => {
                &&& *prev_hand_value < 3
                &&& *current_hand_value < 3
                &&& forall|i: int| 0 <= i < 3 ==> row_sum(#[trigger] history[i]) <= u32::MAX
            },
        }
    }

    /// The largest number that the next hand may be drawn with.
    pub open spec fn draw_limit(&self) -> int {
        match self {
            Strategy::Winning { .. } => 2,
            Strategy::Probe { current_hand_value, history, .. } => row_sum(
                history[*current_hand_value as int],
            ),
        }
    }

    /// `post` and `hand` are what `pre` becomes and plays when `draw` is
    /// drawn. A winning strategy repeats its hand after a win and else
    /// plays the hand numbered `draw`. A probing strategy picks the column
    /// of `draw` in the row of its current hand, moves the current hand to
    /// the previous one, and leaves its table alone.
    pub open spec fn plays(pre: Strategy, post: Strategy, draw: u32, hand: Hand) -> bool {
        match pre {
            Strategy::Winning { won, prev_hand, .. } => {
                &&& post matches Strategy::Winning { won: won2, prev_hand: prev_hand2, .. }
                &&& won2 == won
                &&& prev_hand2 == hand
                &&& hand == if won {
                    prev_hand
                } else {
                    Hand::of_value(draw as int)
                }
            },
            Strategy::Probe { prev_hand_value, current_hand_value, history, .. } => {
                &&& post matches Strategy::Probe {
                    prev_hand_value: prev2,
                    current_hand_value: cur2,
                    history: history2,
                    ..
                }
                &&& prev2 == current_hand_value
                &&& cur2 == pick(history[current_hand_value as int], draw)
                &&& history2 == history
                &&& hand == Hand::of_value(cur2 as int)
            },
        }
    }

    /// The table has room for what `study` would add.
    pub open spec fn can_study(&self, win: bool) -> bool {
        match self {
            Strategy::Winning { .. } => true,
            Strategy::Probe { prev_hand_value, history, .. } => row_sum(
                history[*prev_hand_value as int],
            ) + (if win {
                1int
            } else {
                2int
            }) <= u32::MAX,
        }
    }

    /// `post` is `pre` after it has learnt whether it won. A winning
    /// strategy remembers the outcome. A probing strategy adds `gain` to
    /// each entry of its table.
    pub open spec fn learns(pre: Strategy, post: Strategy, win: bool) -> bool {
        match pre {
            Strategy::Winning { prev_hand, .. } => {
                &&& post matches Strategy::Winning { won: won2, prev_hand: prev_hand2, .. }
                &&& won2 == win
                &&& prev_hand2 == prev_hand
            },
            Strategy::Probe { prev_hand_value, current_hand_value, history, .. } => {
                &&& post matches Strategy::Probe {
                    prev_hand_value: prev2,
                    current_hand_value: cur2,
                    history: history2,
                    ..
                }
                &&& prev2 == prev_hand_value
                &&& cur2 == current_hand_value
                &&& forall|i: int, j: int|
                    0 <= i < 3 && 0 <= j < 3 ==> #[trigger] history2[i][j] == history[i][j] + gain(
                        prev_hand_value,
                        current_hand_value,
                        win,
                        i,
                        j,
                    )
            },
        }
    }

    pub fn of_winning() -> (s: Self)
        ensures
            s matches Strategy::Winning { won, prev_hand, .. } && !won && prev_hand == Hand::Rock,
            s.wf(),
    {
        Strategy::Winning { rng: thread_rng(), won: false, prev_hand: Hand::Rock }
    }

    pub fn of_probe() -> (s: Self)
        ensures
            s matches Strategy::Probe { prev_hand_value, current_hand_value, history, .. }
                && prev_hand_value == 0 && current_hand_value == 0 && forall|i: int, j: int|
                0 <= i < 3 && 0 <= j < 3 ==> #[trigger] history[i][j] == 1,
            s.wf(),
    {
        Strategy::Probe {
            rng: thread_rng(),
            prev_hand_value: 0,
            current_hand_value: 0,
            history: [[1; 3]; 3],
        }
    }

    pub fn get_sum(history: &[[u32; 3]; 3], hand_value: u8) -> (sum: u32)
        requires
            hand_value < 3,
            row_sum(history[hand_value as int]) <= u32::MAX,
        ensures
            sum == row_sum(history[hand_value as int]),
    {
        let row = &history[hand_value as usize];
        row[0] + row[1] + row[2]
    }

    /// The next hand, where the generator has given `draw`.
    pub fn next_hand_with(&mut self, draw: u32) -> (hand: Hand)
        requires
            old(self).wf(),
            draw <= old(self).draw_limit(),
        ensures
            Strategy::plays(*old(self), *final(self), draw, hand),
            final(self).wf(),
    {
        match self {
            Strategy::Winning { won, prev_hand, .. } => {
                if !*won {
                    *prev_hand = Hand::get_hand(draw as u8);
                }
                *prev_hand
            },
            Strategy::Probe { prev_hand_value, current_hand_value, history, .. } => {
                let row = &history[*current_hand_value as usize];
                let hand_value: u8 = if draw < row[0] {
                    0
                } else if draw < row[0] + row[1] {
                    1
                } else {
                    2
                };
                *prev_hand_value = *current_hand_value;
                *current_hand_value = hand_value;
                Hand::get_hand(hand_value)
            },
        }
    }

    /// Draws a number up to `draw_limit` (a winning strategy only after a
    /// game that it did not win) and plays accordingly.
    pub fn next_hand(&mut self) -> (hand: Hand)
        requires
            old(self).wf(),
        ensures
            exists|draw: u32|
                draw <= old(self).draw_limit() && #[trigger] Strategy::plays(
                    *old(self),
                    *final(self),
                    draw,
                    hand,
                ),
            final(self).wf(),
    {
        let draw: u32 = match self {
            Strategy::Winning { rng, won, .. } => {
                if !*won {
                    gen_range_inclusive(rng, 0, 2)
                } else {
                    0
                }
            },
            Strategy::Probe { rng, current_hand_value, history, .. } => {
                let sum = Self::get_sum(history, *current_hand_value);
                gen_range_inclusive(rng, 0, sum)
            },
        };
        let ghost mid = *self;
        let hand = self.next_hand_with(draw);
        proof {
            assert(Strategy::plays(mid, *self, draw, hand));
            assert(Strategy::plays(*old(self), *self, draw, hand));
        }
        hand
    }

    pub fn study(&mut self, win: bool)
        requires
            old(self).wf(),
            old(self).can_study(win),
        ensures
            Strategy::learns(*old(self), *final(self), win),
            final(self).wf(),
    {
        match self {
            Strategy::Winning { won, .. } => *won = win,
            Strategy::Probe { prev_hand_value, current_hand_value, history, .. } => {
                let ghost before = *history;
                let prev = *prev_hand_value as usize;
                let cur = *current_hand_value;
                if win {
                    history[prev][cur as usize] += 1;
                } else {
                    history[prev][((cur + 1) % 3) as usize] += 1;
                    history[prev][((cur + 2) % 3) as usize] += 1;
                }
                assert forall|i: int, j: int| 0 <= i < 3 && 0 <= j < 3 implies #[trigger] history[i][j]
                    == before[i][j] + gain(prev as u8, cur, win, i, j) by {}
                assert forall|i: int| 0 <= i < 3 implies row_sum(#[trigger] history[i])
                    <= u32::MAX by {
                    assert(row_sum(before[i]) <= u32::MAX);
                    assert(history[i][0] == before[i][0] + gain(prev as u8, cur, win, i, 0));
                    assert(history[i][1] == before[i][1] + gain(prev as u8, cur, win, i, 1));
                    assert(history[i][2] == before[i][2] + gain(prev as u8, cur, win, i, 2));
                }
            },
        }
    }
}

#[derive(Debug)]
pub struct Player {
    name: String,
    strategy: Strategy,
    win_count: u32,
    lose_count: u32,
    game_count: u32,
}

impl Player {
    pub closed spec fn name(&self) -> Seq<char> {
        self.name@
    }

    pub closed spec fn strategy(&self) -> Strategy {
        self.strategy
    }

    pub closed spec fn win_count(&self) -> nat {
        self.win_count as nat
    }

    pub closed spec fn lose_count(&self) -> nat {
        self.lose_count as nat
    }

    pub closed spec fn game_count(&self) -> nat {
        self.game_count as nat
    }

    /// The line that describes a player: name, then games, wins and
    /// losses in decimal.
    pub open spec fn spec_to_string(&self) -> Seq<char> {
        "["@ + self.name() + ": "@ + decimal(self.game_count()) + " games, "@ + decimal(
            self.win_count(),
        ) + " win, "@ + decimal(self.lose_count()) + " lose]"@
    }

    pub fn new(name: &str, strategy: Strategy) -> (player: Self)
        ensures
            player.name() == name@,
            player.strategy() == strategy,
            player.win_count() == 0,
            player.lose_count() == 0,
            player.game_count() == 0,
    {
        Self { name: name.to_owned(), strategy, win_count: 0, lose_count: 0, game_count: 0 }
    }

    pub fn next_hand(&mut self) -> (hand: Hand)
        requires
            old(self).strategy().wf(),
        ensures
            exists|draw: u32|
                draw <= old(self).strategy().draw_limit() && #[trigger] Strategy::plays(
                    old(self).strategy(),
                    final(self).strategy(),
                    draw,
                    hand,
                ),
            final(self).strategy().wf(),
            final(self).name() == old(self).name(),
            final(self).win_count() == old(self).win_count(),
            final(self).lose_count() == old(self).lose_count(),
            final(self).game_count() == old(self).game_count(),
    {
        self.strategy.next_hand()
    }

    pub fn win(&mut self)
        requires
            old(self).strategy().wf(),
            old(self).strategy().can_study(true),
            old(self).win_count() < u32::MAX,
            old(self).game_count() < u32::MAX,
        ensures
            Strategy::learns(old(self).strategy(), final(self).strategy(), true),
            final(self).strategy().wf(),
            final(self).name() == old(self).name(),
            final(self).win_count() == old(self).win_count() + 1,
            final(self).lose_count() == old(self).lose_count(),
            final(self).game_count() == old(self).game_count() + 1,
    {
        self.strategy.study(true);
        self.win_count += 1;
        self.game_count += 1;
    }

    pub fn lose(&mut self)
        requires
            old(self).strategy().wf(),
            old(self).strategy().can_study(false),
            old(self).lose_count() < u32::MAX,
            old(self).game_count() < u32::MAX,
        ensures
            Strategy::learns(old(self).strategy(), final(self).strategy(), false),
            final(self).strategy().wf(),
            final(self).name() == old(self).name(),
            final(self).win_count() == old(self).win_count(),
            final(self).lose_count() == old(self).lose_count() + 1,
            final(self).game_count() == old(self).game_count() + 1,
    {
        self.strategy.study(false);
        self.lose_count += 1;
        self.game_count += 1;
    }

    pub fn even(&mut self)
        requires
            old(self).game_count() < u32::MAX,
        ensures
            final(self).strategy() == old(self).strategy(),
            final(self).name() == old(self).name(),
            final(self).win_count() == old(self).win_count(),
            final(self).lose_count() == old(self).lose_count(),
            final(self).game_count() == old(self).game_count() + 1,
    {
        self.game_count += 1;
    }

    /// The player's line, as `[name: g games, w win, l lose]`.
    pub fn to_string(&self) -> (out: String)
        ensures
            out@ == self.spec_to_string(),
    {
        let mut out = String::from_str("[");
        out.append(self.name.as_str());
        out.append(": ");
        out.append(decimal_string(self.game_count as u64).as_str());
        out.append(" games, ");
        out.append(decimal_string(self.win_count as u64).as_str());
        out.append(" win, ");
        out.append(decimal_string(self.lose_count as u64).as_str());
        out.append(" lose]");
        out
    }
}

} // verus!
