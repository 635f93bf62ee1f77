//! Generators and observers as enums; observers of other kinds come in
//! through a trait.

use crate::handles::share;
use crate::observer::{digit_line, digit_line_string, graph_line, graph_line_string, LARGEST, ROUNDS};
use crate::random::{gen_range_inclusive, thread_rng};
use rand::rngs::ThreadRng;
use std::rc::Rc;
use vstd::prelude::*;
use vstd::string::*;

verus! {

pub enum NumberGenerator {
    RandomNumber(RandomNumberNumberGenerator),
}

/// A generator of random numbers below 49, with the observers that it
/// tells of each.
pub struct RandomNumberNumberGenerator {
    observers: Vec<Observer>,
    rng: ThreadRng,
    number: u32,
}

/// An observer of a kind that this module does not know. It is told the
/// number itself: a generator holds its observers, so an observer's
/// contract cannot speak of generators.
pub trait AnyObserver {
    /// What the observer writes when it is told of `number`.
    spec fn update_text(&self, number: u32) -> Seq<char>;

    fn update(&self, number: u32) -> (out: String)
        ensures
            out@ == self.update_text(number),
    ;
}

/// An observer: one of the two kinds known here, or one of another
/// kind, which may be of a type known at compile time or a
/// `dyn AnyObserver`.
pub enum Observer<A: AnyObserver + ?Sized = dyn AnyObserver> {
    Digit,
    Graph,
    Any(Rc<A>),
}

/// What the first `count` of the observers write, one after the other,
/// when they are told of the generator's number.
pub open spec fn notified(observers: Seq<Observer>, generator: &NumberGenerator, count: nat) -> Seq<
    char,
>
    decreases count,
{
    if count == 0 {
        Seq::empty()
    } else {
        notified(observers, generator, (count - 1) as nat) + observers[count - 1].update_text(
            generator,
        )
    }
}

/// What a run writes that takes the generator through `states`: in each
/// state, what all observers write.
pub open spec fn run_text(states: Seq<NumberGenerator>) -> Seq<char>
    decreases states.len(),
{
    if states.len() == 0 {
        Seq::empty()
    } else {
        run_text(states.drop_last()) + states.last().notify_text()
    }
}

impl RandomNumberNumberGenerator {
    pub closed spec fn observers(&self) -> Seq<Observer> {
        self.observers@
    }

    pub closed spec fn number(&self) -> u32 {
        self.number
    }

    pub fn new() -> (generator: Self)
        ensures
            generator.observers() == Seq::<Observer>::empty(),
            generator.number() == 0,
    {
        Self { observers: Vec::new(), rng: thread_rng(), number: 0 }
    }

    pub fn add_observer(&mut self, observer: Observer)
        ensures
            final(self).observers() == old(self).observers().push(observer),
            final(self).number() == old(self).number(),
    {
        self.observers.push(observer);
    }

    /// Takes out the observer at `index`; those behind it move up.
    pub fn delete_observer(&mut self, index: usize)
        requires
            index < old(self).observers().len(),
        ensures
            final(self).observers() == old(self).observers().remove(index as int),
            final(self).number() == old(self).number(),
    {
        self.observers.remove(index);
    }

    pub fn get_number(&self) -> (number: u32)
        ensures
            number == self.number(),
    {
        self.number
    }

    /// The observers, in the order in which they are told.
    pub fn get_observers(&self) -> (observers: &Vec<Observer>)
        ensures
            observers@ == self.observers(),
    {
        &self.observers
    }

    /// Makes `number` the current number.
    pub fn set_number(&mut self, number: u32)
        ensures
            final(self).number() == number,
            final(self).observers() == old(self).observers(),
    {
        self.number = number;
    }

    /// Draws the next number, which is below 49.
    pub fn draw(&mut self)
        ensures
            final(self).number() < LARGEST,
            final(self).observers() == old(self).observers(),
    {
        self.number = gen_range_inclusive(&mut self.rng, 0, LARGEST - 1);
    }
}

impl NumberGenerator {
    pub open spec fn number(&self) -> u32 {
        match self {
            NumberGenerator::RandomNumber(g) => g.number(),
        }
    }

    pub open spec fn observers(&self) -> Seq<Observer> {
        match self {
            NumberGenerator::RandomNumber(g) => g.observers(),
        }
    }

    /// What all observers write when they are told of the current number.
    pub open spec fn notify_text(&self) -> Seq<char> {
        notified(self.observers(), self, self.observers().len())
    }

    pub fn of_random() -> (generator: Self)
        ensures
            generator.observers() == Seq::<Observer>::empty(),
            generator.number() == 0,
    {
        NumberGenerator::RandomNumber(RandomNumberNumberGenerator::new())
    }

    pub fn get_number(&self) -> (number: u32)
        ensures
            number == self.number(),
    {
        match self {
            NumberGenerator::RandomNumber(g) => g.get_number(),
        }
    }

    /// The observers, in the order in which they are told.
    pub fn get_observers(&self) -> (observers: &Vec<Observer>)
        ensures
            observers@ == self.observers(),
    {
        match self {
            NumberGenerator::RandomNumber(g) => g.get_observers(),
        }
    }

    pub fn add_observer(&mut self, observer: Observer)
        ensures
            final(self).observers() == old(self).observers().push(observer),
            final(self).number() == old(self).number(),
    {
        match self {
            NumberGenerator::RandomNumber(g) => g.add_observer(observer),
        }
    }

    /// Takes out the observer at `index`; those behind it move up.
    pub fn delete_observer(&mut self, index: usize)
        requires
            index < old(self).observers().len(),
        ensures
            final(self).observers() == old(self).observers().remove(index as int),
            final(self).number() == old(self).number(),
    {
        match self {
            NumberGenerator::RandomNumber(g) => g.delete_observer(index),
        }
    }

    /// Tells every observer, in the order in which they were added.
    pub fn notify_observers(&self) -> (out: String)
        ensures
            out@ == self.notify_text(),
    {
        match self {
            NumberGenerator::RandomNumber(g) => {
                let mut out = String::new();
                let n = g.observers.len();
                let mut i: usize = 0;
                while i < n
                    invariant
                        i <= n,
                        n == g.observers@.len(),
                        self.observers() == g.observers@,
                        out@ == notified(self.observers(), self, i as nat),
                    decreases n - i,
                {
                    let s = g.observers[i].update(self);
                    out.append(s.as_str());
                    i = i + 1;
                }
                out
            },
        }
    }

    /// Makes `number` the current number and tells every observer.
    pub fn execute_with(&mut self, number: u32) -> (out: String)
        ensures
            final(self).number() == number,
            final(self).observers() == old(self).observers(),
            out@ == final(self).notify_text(),
    {
        match self {
            NumberGenerator::RandomNumber(g) => g.set_number(number),
        }
        self.notify_observers()
    }

    /// Draws twenty numbers below 49 and tells every observer of each.
    pub fn execute(&mut self) -> (out: String)
        ensures
            final(self).observers() == old(self).observers(),
            exists|states: Seq<NumberGenerator>|
                {
                    &&& states.len() == ROUNDS
                    &&& states.last() == *final(self)
                    &&& forall|i: int|
                        0 <= i < states.len() ==> (#[trigger] states[i]).number() < LARGEST
                            && states[i].observers() == old(self).observers()
                    &&& out@ == #[trigger] run_text(states)
                },
    {
        let mut out = String::new();
        let ghost mut states: Seq<NumberGenerator> = Seq::empty();
        let mut round: u32 = 0;
        while round < ROUNDS
            invariant
                round <= ROUNDS,
                states.len() == round,
                self.observers() == old(self).observers(),
                round > 0 ==> states.last() == *self,
                forall|i: int|
                    0 <= i < states.len() ==> (#[trigger] states[i]).number() < LARGEST
                        && states[i].observers() == old(self).observers(),
                out@ == run_text(states),
            decreases ROUNDS - round,
        {
            match self {
                NumberGenerator::RandomNumber(g) => g.draw(),
            }
            let s = self.notify_observers();
            out.append(s.as_str());
            proof {
                let before = states;
                states = states.push(*self);
                assert(states.drop_last() =~= before);
            }
            round = round + 1;
        }
        out
    }
}

impl<A: AnyObserver + ?Sized> Clone for Observer<A> {
    /// The same observer once more; an observer of another kind is shared,
    /// not copied.
    fn clone(&self) -> (observer: Self)
        ensures
            observer == *self,
    {
        match self {
            Observer::Digit => Observer::Digit,
            Observer::Graph => Observer::Graph,
            Observer::Any(rc) => Observer::Any(share(rc)),
        }
    }
}

impl<A: AnyObserver + ?Sized> Observer<A> {
    /// What the observer writes when it is told of the generator's number.
    pub open spec fn update_text(&self, generator: &NumberGenerator) -> Seq<char> {
        match self {
            Observer::Digit => digit_line(generator.number()),
            Observer::Graph => graph_line(generator.number()),
            Observer::Any(rc) => rc.update_text(generator.number()),
        }
    }

    pub fn update(&self, generator: &NumberGenerator) -> (out: String)
        ensures
            out@ == self.update_text(generator),
    {
        match self {
            Observer::Digit => digit_line_string(generator.get_number()),
            Observer::Graph => graph_line_string(generator.get_number()),
            Observer::Any(rc) => rc.update(generator.get_number()),
        }
    }
}

} // verus!
