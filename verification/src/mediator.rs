//! Colleagues that do not know each other, and a mediator that passes on
//! what one of them has to say to all the others.

use vstd::prelude::*;
use vstd::string::*;

verus! {

/// Puts `item` behind the others. The item comes first among the
/// arguments, so that its type is taken as it stands.
fn put_last<T>(item: T, items: &mut Vec<T>)
    ensures
        final(items)@.len() == old(items)@.len() + 1,
        final(items)@[old(items)@.len() as int] == item,
        forall|k: int| 0 <= k < old(items)@.len() ==> #[trigger] final(items)@[k] == old(items)@[k],
{
    items.push(item);
}

/// Puts `item` in the place at `index`. The item comes first among the
/// arguments, so that its type is taken as it stands.
fn put_at<T>(item: T, items: &mut Vec<T>, index: usize)
    requires
        index < old(items)@.len(),
    ensures
        final(items)@.len() == old(items)@.len(),
        final(items)@[index as int] == item,
        forall|k: int|
            0 <= k < old(items)@.len() && k != index ==> #[trigger] final(items)@[k]
                == old(items)@[k],
{
    items.set(index, item);
}

/// Tells whether two texts are the same.
pub fn same_text(a: &str, b: &str) -> (same: bool)
    ensures
        same == (a@ == b@),
{
    let x = a.to_owned();
    let y = b.to_owned();
    x == y
}

/// Someone who works with others by way of a mediator. A colleague keeps
/// its name whatever it is told.
pub trait Colleague {
    spec fn spec_name(&self) -> Seq<char>;

    /// What the colleague writes when it is told `msg`.
    spec fn received(&self, msg: Seq<char>) -> Seq<char>;

    /// What the colleague has to say when it runs.
    spec fn message(&self) -> Seq<char>;

    fn name(&self) -> (name: &str)
        ensures
            name@ == self.spec_name(),
    ;

    fn on_changed(&mut self, msg: &str) -> (out: String)
        ensures
            out@ == old(self).received(msg@),
            final(self).spec_name() == old(self).spec_name(),
    ;

    /// Runs the colleague, and gives what it has to say to the others.
    fn run(&self) -> (msg: String)
        ensures
            msg@ == self.message(),
    ;
}

/// No two of the colleagues have the same name.
pub open spec fn distinct_names(colleagues: Seq<Box<dyn Colleague>>) -> bool {
    forall|i: int, j: int|
        #![trigger colleagues[i], colleagues[j]]
        0 <= i < j < colleagues.len() ==> colleagues[i].spec_name() != colleagues[j].spec_name()
}

/// Passes on what a colleague has to say. A mediator that knows each of
/// its colleagues by a name of its own keeps doing so.
pub trait Mediator {
    /// The colleagues that the mediator knows, in the order in which it
    /// tells them.
    spec fn colleagues(&self) -> Seq<Box<dyn Colleague>>;

    /// Takes a colleague in, in place of the one of the same name if
    /// there is one, and else behind the others.
    fn add_colleague(&mut self, colleague: Box<dyn Colleague>)
        ensures
            ({
                let before = old(self).colleagues();
                let after = final(self).colleagues();
                let place = place_of(before, colleague.spec_name(), before.len());
                &&& after.len() == if place < before.len() {
                    before.len()
                } else {
                    before.len() + 1
                }
                &&& after[place as int] == colleague
                &&& forall|k: int|
                    0 <= k < before.len() && k != place ==> #[trigger] after[k] == before[k]
            }),
            distinct_names(old(self).colleagues()) ==> distinct_names(final(self).colleagues()),
    ;

    /// Tells `msg` to every colleague but those named `sender`, and gives
    /// what they write. All keep their places and names.
    fn colleague_changed(&mut self, sender: &str, msg: &str) -> (out: String)
        ensures
            out@ == told(old(self).colleagues(), sender@, msg@, old(self).colleagues().len()),
            final(self).colleagues().len() == old(self).colleagues().len(),
            forall|i: int|
                0 <= i < old(self).colleagues().len() ==> (#[trigger] final(self).colleagues()[i])
                    .spec_name() == old(self).colleagues()[i].spec_name(),
            distinct_names(old(self).colleagues()) ==> distinct_names(final(self).colleagues()),
    ;
}

/// The place of the first colleague of the given name among the first
/// `count`, or `count` where none of them has that name.
pub open spec fn place_of(colleagues: Seq<Box<dyn Colleague>>, name: Seq<char>, count: nat) -> nat
    decreases count,
{
    if count == 0 {
        0
    } else {
        let before = place_of(colleagues, name, (count - 1) as nat);
        if before < count - 1 {
            before
        } else if colleagues[count - 1].spec_name() == name {
            (count - 1) as nat
        } else {
            count
        }
    }
}

/// What the first `count` of the colleagues write when `msg` is told to
/// all of them but those named `sender`.
pub open spec fn told(
    colleagues: Seq<Box<dyn Colleague>>,
    sender: Seq<char>,
    msg: Seq<char>,
    count: nat,
) -> Seq<char>
    decreases count,
{
    if count == 0 {
        Seq::empty()
    } else {
        told(colleagues, sender, msg, (count - 1) as nat) + if colleagues[count - 1].spec_name()
            == sender {
            Seq::empty()
        } else {
            colleagues[count - 1].received(msg)
        }
    }
}

/// A mediator that keeps its colleagues in the order in which it took them
/// in, one for each name, and tells them in that order.
pub struct ConcreteMediator {
    colleagues: Vec<Box<dyn Colleague>>,
}

impl ConcreteMediator {
    pub fn new() -> (mediator: ConcreteMediator)
        ensures
            mediator.colleagues() == Seq::<Box<dyn Colleague>>::empty(),
            distinct_names(mediator.colleagues()),
    {
        ConcreteMediator { colleagues: Vec::new() }
    }

    /// Runs the colleague and passes on what it has to say to the others.
    pub fn run<C: Colleague + ?Sized>(&mut self, colleague: &C) -> (out: String)
        ensures
            out@ == told(
                old(self).colleagues(),
                colleague.spec_name(),
                colleague.message(),
                old(self).colleagues().len(),
            ),
            final(self).colleagues().len() == old(self).colleagues().len(),
            forall|i: int|
                0 <= i < old(self).colleagues().len() ==> (#[trigger] final(self).colleagues()[i])
                    .spec_name() == old(self).colleagues()[i].spec_name(),
            distinct_names(old(self).colleagues()) ==> distinct_names(final(self).colleagues()),
    {
        let msg = colleague.run();
        self.colleague_changed(colleague.name(), msg.as_str())
    }
}

impl Mediator for ConcreteMediator {
    closed spec fn colleagues(&self) -> Seq<Box<dyn Colleague>> {
        self.colleagues@
    }

    fn add_colleague(&mut self, colleague: Box<dyn Colleague>) {
        let n = self.colleagues.len();
        let mut i: usize = 0;
        while i < n
            invariant
                i <= n,
                n == self.colleagues@.len(),
                self.colleagues@ == old(self).colleagues@,
                place_of(self.colleagues@, colleague.spec_name(), i as nat) == i,
            decreases n - i,
        {
            if same_text(self.colleagues[i].name(), colleague.name()) {
                proof {
                    lemma_place_found(self.colleagues@, colleague.spec_name(), i as nat, n as nat);
                }
                put_at(colleague, &mut self.colleagues, i);
                return ;
            }
            i = i + 1;
        }
        proof {
            lemma_place_missing(self.colleagues@, colleague.spec_name(), n as nat);
        }
        put_last(colleague, &mut self.colleagues);
    }

    fn colleague_changed(&mut self, sender: &str, msg: &str) -> (out: String) {
        let mut out = String::new();
        let n = self.colleagues.len();
        let mut i: usize = 0;
        while i < n
            invariant
                i <= n,
                n == self.colleagues@.len(),
                n == old(self).colleagues@.len(),
                out@ == told(old(self).colleagues@, sender@, msg@, i as nat),
                forall|k: int|
                    0 <= k < n ==> (#[trigger] self.colleagues@[k]).spec_name() == old(
                        self,
                    ).colleagues@[k].spec_name(),
                forall|k: int| i <= k < n ==> self.colleagues@[k] == old(self).colleagues@[k],
            decreases n - i,
        {
            if !same_text(self.colleagues[i].name(), sender) {
                let s = self.colleagues[i].on_changed(msg);
                out.append(s.as_str());
            }
            i = i + 1;
        }
        out
    }
}

/// Where a name has no place among the first `count` colleagues, none of
/// them has that name.
pub proof fn lemma_place_missing(colleagues: Seq<Box<dyn Colleague>>, name: Seq<char>, count: nat)
    requires
        count <= colleagues.len(),
        place_of(colleagues, name, count) == count,
    ensures
        forall|k: int| 0 <= k < count ==> (#[trigger] colleagues[k]).spec_name() != name,
    decreases count,
{
    if count > 0 {
        lemma_place_bound(colleagues, name, (count - 1) as nat);
        lemma_place_missing(colleagues, name, (count - 1) as nat);
    }
}

/// The place of a name among the first `count` colleagues is at most
/// `count`.
pub proof fn lemma_place_bound(colleagues: Seq<Box<dyn Colleague>>, name: Seq<char>, count: nat)
    ensures
        place_of(colleagues, name, count) <= count,
    decreases count,
{
    if count > 0 {
        lemma_place_bound(colleagues, name, (count - 1) as nat);
    }
}

/// Once a name is found at `place`, that is its place however many more
/// colleagues are looked at.
pub proof fn lemma_place_found(
    colleagues: Seq<Box<dyn Colleague>>,
    name: Seq<char>,
    place: nat,
    count: nat,
)
    requires
        place < count <= colleagues.len(),
        place_of(colleagues, name, place) == place,
        colleagues[place as int].spec_name() == name,
    ensures
        place_of(colleagues, name, count) == place,
    decreases count,
{
    if count > place + 1 {
        lemma_place_found(colleagues, name, place, (count - 1) as nat);
    }
}

/// A colleague that says `Hello`.
pub struct ConcreteColleagueA {
    name: String,
}

impl ConcreteColleagueA {
    pub fn new(name: &str) -> (colleague: ConcreteColleagueA)
        ensures
            colleague.spec_name() == name@,
    {
        Self { name: name.to_owned() }
    }
}

impl Colleague for ConcreteColleagueA {
    closed spec fn spec_name(&self) -> Seq<char> {
        self.name@
    }

    open spec fn received(&self, msg: Seq<char>) -> Seq<char> {
        self.spec_name() + " received: "@ + msg + "\n"@
    }

    open spec fn message(&self) -> Seq<char> {
        "Hello"@
    }

    fn name(&self) -> (name: &str) {
        self.name.as_str()
    }

    fn on_changed(&mut self, msg: &str) -> (out: String) {
        let mut out = self.name.clone();
        out.append(" received: ");
        out.append(msg);
        out.append("\n");
        out
    }

    fn run(&self) -> (msg: String) {
        String::from_str("Hello")
    }
}

/// A colleague that says `Hi`.
pub struct ConcreteColleagueB {
    name: String,
}

impl ConcreteColleagueB {
    pub fn new(name: &str) -> (colleague: Self)
        ensures
            colleague.spec_name() == name@,
    {
        Self { name: name.to_owned() }
    }
}

impl Colleague for ConcreteColleagueB {
    closed spec fn spec_name(&self) -> Seq<char> {
        self.name@
    }

    open spec fn received(&self, msg: Seq<char>) -> Seq<char> {
        self.spec_name() + " received: "@ + msg + "\n"@
    }

    open spec fn message(&self) -> Seq<char> {
        "Hi"@
    }

    fn name(&self) -> (name: &str) {
        self.name.as_str()
    }

    fn on_changed(&mut self, msg: &str) -> (out: String) {
        let mut out = self.name.clone();
        out.append(" received: ");
        out.append(msg);
        out.append("\n");
        out
    }

    fn run(&self) -> (msg: String) {
        String::from_str("Hi")
    }
}

} // verus!
