//! The chain as a recursive enum: each support holds the next one.

use crate::chain_of_responsibility::{
    done_line, done_line_string, fail_line, fail_line_string, support_label,
    support_label_string, Trouble,
};
use std::rc::Rc;
use vstd::prelude::*;
use vstd::string::*;

verus! {

#[derive(Debug)]
pub enum Support {
    No(NoSupport),
    Limit(LimitSupport),
    Odd(OddSupport),
    Special(SpecialSupport),
}

/// Resolves nothing.
#[derive(Debug)]
pub struct NoSupport {
    name: String,
    next: Option<Rc<Support>>,
}

/// Resolves the troubles whose number is below its limit.
#[derive(Debug)]
pub struct LimitSupport {
    name: String,
    next: Option<Rc<Support>>,
    limit: u32,
}

/// Resolves the troubles with an odd number.
#[derive(Debug)]
pub struct OddSupport {
    name: String,
    next: Option<Rc<Support>>,
}

/// Resolves the trouble with one number.
#[derive(Debug)]
pub struct SpecialSupport {
    name: String,
    next: Option<Rc<Support>>,
    number: u32,
}

/// What all kinds of support have in common.
pub trait SupportBehavior {
    /// How the support is written.
    spec fn label(&self) -> Seq<char>;

    /// Whether the support resolves the trouble with the given number.
    spec fn resolves(&self, number: u32) -> bool;

    /// The support that comes next in the chain.
    spec fn spec_next(&self) -> Option<Rc<Support>>;

    fn to_string(&self) -> (out: String)
        ensures
            out@ == self.label(),
    ;

    fn resolve(&self, trouble: &Trouble) -> (resolved: bool)
        ensures
            resolved == self.resolves(trouble.spec_number()),
    ;

    fn next(&self) -> (next: &Option<Rc<Support>>)
        ensures
            *next == self.spec_next(),
    ;

    /// Reports that this support resolved the trouble.
    fn done(&self, trouble: &Trouble) -> (out: String)
        ensures
            out@ == done_line(trouble.label(), self.label()),
    {
        done_line_string(trouble, self.to_string().as_str())
    }

    /// Reports that nobody resolved the trouble.
    fn fail(&self, trouble: &Trouble) -> (out: String)
        ensures
            out@ == fail_line(trouble.label()),
    {
        fail_line_string(trouble)
    }
}

impl NoSupport {
    pub closed spec fn name(&self) -> Seq<char> {
        self.name@
    }

    pub fn new(name: &str, next: Option<Rc<Support>>) -> (support: Self)
        ensures
            support.name() == name@,
            support.spec_next() == next,
    {
        Self { name: name.to_owned(), next }
    }
}

impl SupportBehavior for NoSupport {
    open spec fn label(&self) -> Seq<char> {
        support_label(self.name(), "NoSupport"@)
    }

    open spec fn resolves(&self, number: u32) -> bool {
        false
    }

    closed spec fn spec_next(&self) -> Option<Rc<Support>> {
        self.next
    }

    fn to_string(&self) -> (out: String) {
        support_label_string(self.name.as_str(), "NoSupport")
    }

    fn resolve(&self, trouble: &Trouble) -> (resolved: bool) {
        false
    }

    fn next(&self) -> (next: &Option<Rc<Support>>) {
        &self.next
    }
}

impl LimitSupport {
    pub closed spec fn name(&self) -> Seq<char> {
        self.name@
    }

    pub closed spec fn limit(&self) -> u32 {
        self.limit
    }

    pub fn new(name: &str, limit: u32, next: Option<Rc<Support>>) -> (support: Self)
        ensures
            support.name() == name@,
            support.limit() == limit,
            support.spec_next() == next,
    {
        Self { name: name.to_owned(), next, limit }
    }
}

impl SupportBehavior for LimitSupport {
    open spec fn label(&self) -> Seq<char> {
        support_label(self.name(), "LimitSupport"@)
    }

    open spec fn resolves(&self, number: u32) -> bool {
        number < self.limit()
    }

    closed spec fn spec_next(&self) -> Option<Rc<Support>> {
        self.next
    }

    fn to_string(&self) -> (out: String) {
        support_label_string(self.name.as_str(), "LimitSupport")
    }

    fn resolve(&self, trouble: &Trouble) -> (resolved: bool) {
        trouble.number() < self.limit
    }

    fn next(&self) -> (next: &Option<Rc<Support>>) {
        &self.next
    }
}

impl OddSupport {
    pub closed spec fn name(&self) -> Seq<char> {
        self.name@
    }

    pub fn new(name: &str, next: Option<Rc<Support>>) -> (support: Self)
        ensures
            support.name() == name@,
            support.spec_next() == next,
    {
        Self { name: name.to_owned(), next }
    }
}

impl SupportBehavior for OddSupport {
    open spec fn label(&self) -> Seq<char> {
        support_label(self.name(), "OddSupport"@)
    }

    open spec fn resolves(&self, number: u32) -> bool {
        number % 2 == 1
    }

    closed spec fn spec_next(&self) -> Option<Rc<Support>> {
        self.next
    }

    fn to_string(&self) -> (out: String) {
        support_label_string(self.name.as_str(), "OddSupport")
    }

    fn resolve(&self, trouble: &Trouble) -> (resolved: bool) {
        trouble.number() % 2 == 1
    }

    fn next(&self) -> (next: &Option<Rc<Support>>) {
        &self.next
    }
}

impl SpecialSupport {
    pub closed spec fn name(&self) -> Seq<char> {
        self.name@
    }

    pub closed spec fn number(&self) -> u32 {
        self.number
    }

    pub fn new(name: &str, number: u32, next: Option<Rc<Support>>) -> (support: Self)
        ensures
            support.name() == name@,
            support.number() == number,
            support.spec_next() == next,
    {
        Self { name: name.to_owned(), next, number }
    }
}

impl SupportBehavior for SpecialSupport {
    open spec fn label(&self) -> Seq<char> {
        support_label(self.name(), "SpecialSupport"@)
    }

    open spec fn resolves(&self, number: u32) -> bool {
        number == self.number()
    }

    closed spec fn spec_next(&self) -> Option<Rc<Support>> {
        self.next
    }

    fn to_string(&self) -> (out: String) {
        support_label_string(self.name.as_str(), "SpecialSupport")
    }

    fn resolve(&self, trouble: &Trouble) -> (resolved: bool) {
        trouble.number() == self.number
    }

    fn next(&self) -> (next: &Option<Rc<Support>>) {
        &self.next
    }
}

impl Support {
    /// How the support is written.
    pub open spec fn label(&self) -> Seq<char> {
        match self {
            Support::No(u) => u.label(),
            Support::Limit(u) => u.label(),
            Support::Odd(u) => u.label(),
            Support::Special(u) => u.label(),
        }
    }

    /// Whether the support itself resolves the trouble with the given
    /// number.
    pub open spec fn resolves(&self, number: u32) -> bool {
        match self {
            Support::No(u) => u.resolves(number),
            Support::Limit(u) => u.resolves(number),
            Support::Odd(u) => u.resolves(number),
            Support::Special(u) => u.resolves(number),
        }
    }

    /// The support that comes next in the chain.
    pub closed spec fn spec_next(&self) -> Option<Rc<Support>> {
        match self {
            Support::No(u) => u.next,
            Support::Limit(u) => u.next,
            Support::Odd(u) => u.next,
            Support::Special(u) => u.next,
        }
    }

    /// What the chain reports of a trouble with the given number and
    /// label: the first support that resolves it says so; where none
    /// does, the last one reports the failure.
    pub open spec fn support_text(&self, number: u32, trouble: Seq<char>) -> Seq<char>
        decreases self,
    {
        if self.resolves(number) {
            done_line(trouble, self.label())
        } else {
            match self.spec_next() {
                Some(next) => next.support_text(number, trouble),
                None => fail_line(trouble),
            }
        }
    }

    pub fn of_no(name: &str, next: Option<Rc<Support>>) -> (support: Self)
        ensures
            support matches Support::No(u) && u.name() == name@,
            support.spec_next() == next,
    {
        Support::No(NoSupport::new(name, next))
    }

    pub fn of_limit(name: &str, limit: u32, next: Option<Rc<Support>>) -> (support: Self)
        ensures
            support matches Support::Limit(u) && u.name() == name@ && u.limit() == limit,
            support.spec_next() == next,
    {
        Support::Limit(LimitSupport::new(name, limit, next))
    }

    pub fn of_odd(name: &str, next: Option<Rc<Support>>) -> (support: Self)
        ensures
            support matches Support::Odd(u) && u.name() == name@,
            support.spec_next() == next,
    {
        Support::Odd(OddSupport::new(name, next))
    }

    pub fn of_special(name: &str, number: u32, next: Option<Rc<Support>>) -> (support: Self)
        ensures
            support matches Support::Special(u) && u.name() == name@ && u.number() == number,
            support.spec_next() == next,
    {
        Support::Special(SpecialSupport::new(name, number, next))
    }

    /// Whether the support itself resolves the trouble.
    pub fn resolve(&self, trouble: &Trouble) -> (resolved: bool)
        ensures
            resolved == self.resolves(trouble.spec_number()),
    {
        match self {
            Support::No(u) => u.resolve(trouble),
            Support::Limit(u) => u.resolve(trouble),
            Support::Odd(u) => u.resolve(trouble),
            Support::Special(u) => u.resolve(trouble),
        }
    }

    /// Hands the trouble along the chain and gives the line that reports
    /// how it ended.
    pub fn support(&self, trouble: &Trouble) -> (out: String)
        ensures
            out@ == self.support_text(trouble.spec_number(), trouble.label()),
        decreases self,
    {
        if self.resolve(trouble) {
            match self {
                Support::No(u) => u.done(trouble),
                Support::Limit(u) => u.done(trouble),
                Support::Odd(u) => u.done(trouble),
                Support::Special(u) => u.done(trouble),
            }
        } else {
            let next = match self {
                Support::No(u) => u.next(),
                Support::Limit(u) => u.next(),
                Support::Odd(u) => u.next(),
                Support::Special(u) => u.next(),
            };
            match next {
                Some(next) => next.support(trouble),
                None => fail_line_string(trouble),
            }
        }
    }
}

} // verus!
