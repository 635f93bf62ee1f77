//! Generators and observers behind traits.

use crate::observer::{digit_line, digit_line_string, graph_line, graph_line_string, LARGEST, ROUNDS};
use crate::random::{gen_range_inclusive, thread_rng};
use rand::rngs::ThreadRng;
use vstd::prelude::*;
use vstd::string::*;

verus! {

/// Something that is told whenever a generator has a new number. It is
/// told the number itself: a generator holds its observers, so an
/// observer's contract cannot speak of generators.
pub trait Observer {
    /// What the observer writes when it is told of `number`.
    spec fn update_text(&self, number: u32) -> Seq<char>;

    fn update(&self, number: u32) -> (out: String)
        ensures
            out@ == self.update_text(number),
    ;
}

/// What the first `count` of the observers write, one after the other,
/// when they are told of `number`.
pub open spec fn notified(observers: Seq<Box<dyn Observer>>, number: u32, count: nat) -> Seq<char>
    decreases count,
{
    if count == 0 {
        Seq::empty()
    } else {
        notified(observers, number, (count - 1) as nat) + observers[count - 1].update_text(number)
    }
}

/// What a run writes in which the generator's number takes the values of
/// `numbers` in turn: for each, what all observers write.
pub open spec fn run_text(observers: Seq<Box<dyn Observer>>, numbers: Seq<u32>) -> Seq<char>
    decreases numbers.len(),
{
    if numbers.len() == 0 {
        Seq::empty()
    } else {
        run_text(observers, numbers.drop_last()) + notified(
            observers,
            numbers.last(),
            observers.len(),
        )
    }
}

/// Something that holds a number and a list of observers.
pub trait NumberGenerator {
    spec fn number(&self) -> u32;

    spec fn observers(&self) -> Seq<Box<dyn Observer>>;

    /// Takes an observer in, behind the others.
    fn add_observer(&mut self, observer: Box<dyn Observer>)
        ensures
            final(self).observers().len() == old(self).observers().len() + 1,
            final(self).observers()[old(self).observers().len() as int] == observer,
            forall|k: int|
                0 <= k < old(self).observers().len() ==> #[trigger] final(self).observers()[k]
                    == old(self).observers()[k],
            final(self).number() == old(self).number(),
    ;

    /// Takes out the observer at `index`; those behind it move up.
    fn delete_observer(&mut self, index: usize)
        requires
            index < old(self).observers().len(),
        ensures
            final(self).observers() == old(self).observers().remove(index as int),
            final(self).number() == old(self).number(),
    ;

    /// Tells every observer, in the order in which they were added.
    fn notify_observers(&self) -> (out: String)
        ensures
            out@ == notified(self.observers(), self.number(), self.observers().len()),
    ;

    fn get_number(&self) -> (number: u32)
        ensures
            number == self.number(),
    ;

    /// Produces numbers and tells the observers of each.
    fn execute(&mut self) -> (out: String)
        ensures
            final(self).observers() == old(self).observers(),
    ;
}

/// Puts `item` behind the others. The item comes first among the
/// arguments, so that its type is taken as it stands.
fn put_last<T>(item: T, items: &mut Vec<T>)
    ensures
        final(items)@.len() == old(items)@.len() + 1,
        final(items)@[old(items)@.len() as int] == item,
        forall|k: int| 0 <= k < old(items)@.len() ==> #[trigger] final(items)@[k] == old(items)@[k],
{
    items.push(item);
}

/// A generator of random numbers up to 49.
pub struct RandomNumberGenerator {
    observers: Vec<Box<dyn Observer>>,
    rng: ThreadRng,
    number: u32,
}

impl RandomNumberGenerator {
    pub fn new() -> (generator: Self)
        ensures
            generator.observers() == Seq::<Box<dyn Observer>>::empty(),
            generator.number() == 0,
    {
        Self { observers: Vec::new(), rng: thread_rng(), number: 0 }
    }

    /// The observers, in the order in which they are told.
    pub fn get_observers(&self) -> (observers: &Vec<Box<dyn Observer>>)
        ensures
            observers@ == self.observers(),
    {
        &self.observers
    }

    /// Makes `number` the current number and tells every observer.
    pub fn execute_with(&mut self, number: u32) -> (out: String)
        ensures
            final(self).number() == number,
            final(self).observers() == old(self).observers(),
            out@ == notified(old(self).observers(), number, old(self).observers().len()),
    {
        self.number = number;
        self.notify_observers()
    }
}

impl NumberGenerator for RandomNumberGenerator {
    closed spec fn number(&self) -> u32 {
        self.number
    }

    closed spec fn observers(&self) -> Seq<Box<dyn Observer>> {
        self.observers@
    }

    fn add_observer(&mut self, observer: Box<dyn Observer>) {
        put_last(observer, &mut self.observers);
    }

    fn delete_observer(&mut self, index: usize) {
        self.observers.remove(index);
    }

    fn notify_observers(&self) -> (out: String) {
        let mut out = String::new();
        let n = self.observers.len();
        let mut i: usize = 0;
        while i < n
            invariant
                i <= n,
                n == self.observers@.len(),
                out@ == notified(self.observers@, self.number, i as nat),
            decreases n - i,
        {
            let s = self.observers[i].update(self.number);
            out.append(s.as_str());
            i = i + 1;
        }
        out
    }

    fn get_number(&self) -> (number: u32) {
        self.number
    }

    /// Draws twenty numbers up to 49 and tells every observer of each.
    fn execute(&mut self) -> (out: String)
        ensures
            exists|numbers: Seq<u32>|
                {
                    &&& numbers.len() == ROUNDS
                    &&& numbers.last() == final(self).number()
                    &&& forall|i: int| 0 <= i < numbers.len() ==> #[trigger] numbers[i] <= LARGEST
                    &&& out@ == #[trigger] run_text(old(self).observers(), numbers)
                },
    {
        let mut out = String::new();
        let ghost mut numbers: Seq<u32> = Seq::empty();
        let mut round: u32 = 0;
        while round < ROUNDS
            invariant
                round <= ROUNDS,
                numbers.len() == round,
                self.observers() == old(self).observers(),
                round > 0 ==> numbers.last() == self.number,
                forall|i: int| 0 <= i < numbers.len() ==> #[trigger] numbers[i] <= LARGEST,
                out@ == run_text(old(self).observers(), numbers),
            decreases ROUNDS - round,
        {
            self.number = gen_range_inclusive(&mut self.rng, 0, LARGEST);
            let s = self.notify_observers();
            out.append(s.as_str());
            proof {
                let before = numbers;
                numbers = numbers.push(self.number);
                assert(numbers.drop_last() =~= before);
            }
            round = round + 1;
        }
        out
    }
}

/// Writes the number in digits.
#[derive(Debug)]
pub struct DigitObserver;

impl DigitObserver {
    pub fn new() -> Self {
        Self
    }
}

impl Observer for DigitObserver {
    open spec fn update_text(&self, number: u32) -> Seq<char> {
        digit_line(number)
    }

    fn update(&self, number: u32) -> (out: String) {
        digit_line_string(number)
    }
}

/// Writes the number as a bar of asterisks.
#[derive(Debug)]
pub struct GraphObserver;

impl GraphObserver {
    pub fn new() -> Self {
        Self
    }
}

impl Observer for GraphObserver {
    open spec fn update_text(&self, number: u32) -> Seq<char> {
        graph_line(number)
    }

    fn update(&self, number: u32) -> (out: String) {
        graph_line_string(number)
    }
}

} // verus!
