//! The chain with every support behind a trait object.

use crate::chain_of_responsibility::{
    done_line, done_line_string, fail_line, fail_line_string, support_label,
    support_label_string, Trouble,
};
use std::rc::Rc;
use vstd::prelude::*;
use vstd::string::*;

verus! {

/// A link of the chain.
pub trait Support {
    /// How the support is written.
    spec fn label(&self) -> Seq<char>;

    /// Whether the support itself resolves the trouble with the given
    /// number.
    spec fn resolves(&self, number: u32) -> bool;

    /// What the chain from here on reports of a trouble with the given
    /// number and label.
    spec fn support_text(&self, number: u32, trouble: Seq<char>) -> Seq<char>;

    fn to_string(&self) -> (out: String)
        ensures
            out@ == self.label(),
    ;

    /// Reports that this support resolved the trouble.
    fn done(&self, trouble: &Trouble) -> (out: String)
        ensures
            out@ == done_line(trouble.label(), self.label()),
    {
        done_line_string(trouble, self.to_string().as_str())
    }

    /// Reports that nobody resolved the trouble.
    fn fail(&self, trouble: &Trouble) -> (out: String)
        ensures
            out@ == fail_line(trouble.label()),
    {
        fail_line_string(trouble)
    }

    fn resolve(&self, trouble: &Trouble) -> (resolved: bool)
        ensures
            resolved == self.resolves(trouble.spec_number()),
    ;

    /// Hands the trouble along the chain and gives the line that reports
    /// how it ended.
    fn support(&self, trouble: &Trouble) -> (out: String)
        ensures
            out@ == self.support_text(trouble.spec_number(), trouble.label()),
    ;
}

/// What a support with the given label and successor reports: where it
/// resolves the trouble it says so, else the rest of the chain reports,
/// and where there is no rest, the failure is reported.
pub open spec fn chain_text(
    resolved: bool,
    label: Seq<char>,
    next: Option<Rc<dyn Support>>,
    number: u32,
    trouble: Seq<char>,
) -> Seq<char> {
    if resolved {
        done_line(trouble, label)
    } else {
        match next {
            Some(next) => next.support_text(number, trouble),
            None => fail_line(trouble),
        }
    }
}

/// Reports for a support with the given label that has or has not
/// resolved the trouble, handing the trouble on to `next` where it has
/// not.
fn report_or_pass(
    resolved: bool,
    label: &str,
    next: &Option<Rc<dyn Support>>,
    trouble: &Trouble,
) -> (out: String)
    ensures
        out@ == chain_text(resolved, label@, *next, trouble.spec_number(), trouble.label()),
{
    if resolved {
        done_line_string(trouble, label)
    } else {
        match next {
            Some(next) => next.support(trouble),
            None => fail_line_string(trouble),
        }
    }
}

/// Resolves nothing.
pub struct NoSupport {
    name: String,
    next: Option<Rc<dyn Support>>,
}

impl NoSupport {
    pub closed spec fn name(&self) -> Seq<char> {
        self.name@
    }

    /// The support that comes next in the chain.
    pub closed spec fn spec_next(&self) -> Option<Rc<dyn Support>> {
        self.next
    }

    pub fn next(&self) -> (next: &Option<Rc<dyn Support>>)
        ensures
            *next == self.spec_next(),
    {
        &self.next
    }

    pub fn new(name: &str, next: Option<Rc<dyn Support>>) -> (support: Self)
        ensures
            support.name() == name@,
            support.spec_next() == next,
    {
        Self { name: name.to_owned(), next }
    }
}

impl Support for NoSupport {
    open spec fn label(&self) -> Seq<char> {
        support_label(self.name(), "NoSupport"@)
    }

    fn to_string(&self) -> (out: String) {
        support_label_string(self.name.as_str(), "NoSupport")
    }

    open spec fn resolves(&self, number: u32) -> bool {
        false
    }

    open spec fn support_text(&self, number: u32, trouble: Seq<char>) -> Seq<char> {
        chain_text(self.resolves(number), self.label(), self.spec_next(), number, trouble)
    }

    fn resolve(&self, trouble: &Trouble) -> (resolved: bool) {
        false
    }

    fn support(&self, trouble: &Trouble) -> (out: String) {
        report_or_pass(self.resolve(trouble), self.to_string().as_str(), &self.next, trouble)
    }
}

/// Resolves the troubles whose number is below its limit.
pub struct LimitSupport {
    name: String,
    next: Option<Rc<dyn Support>>,
    limit: u32,
}

impl LimitSupport {
    pub closed spec fn name(&self) -> Seq<char> {
        self.name@
    }

    /// The support that comes next in the chain.
    pub closed spec fn spec_next(&self) -> Option<Rc<dyn Support>> {
        self.next
    }

    pub fn next(&self) -> (next: &Option<Rc<dyn Support>>)
        ensures
            *next == self.spec_next(),
    {
        &self.next
    }

    pub closed spec fn limit(&self) -> u32 {
        self.limit
    }

    pub fn new(name: &str, limit: u32, next: Option<Rc<dyn Support>>) -> (support: Self)
        ensures
            support.name() == name@,
            support.limit() == limit,
            support.spec_next() == next,
    {
        Self { name: name.to_owned(), next, limit }
    }
}

impl Support for LimitSupport {
    open spec fn label(&self) -> Seq<char> {
        support_label(self.name(), "LimitSupport"@)
    }

    fn to_string(&self) -> (out: String) {
        support_label_string(self.name.as_str(), "LimitSupport")
    }

    open spec fn resolves(&self, number: u32) -> bool {
        number < self.limit()
    }

    open spec fn support_text(&self, number: u32, trouble: Seq<char>) -> Seq<char> {
        chain_text(self.resolves(number), self.label(), self.spec_next(), number, trouble)
    }

    fn resolve(&self, trouble: &Trouble) -> (resolved: bool) {
        trouble.number() < self.limit
    }

    fn support(&self, trouble: &Trouble) -> (out: String) {
        report_or_pass(self.resolve(trouble), self.to_string().as_str(), &self.next, trouble)
    }
}

/// Resolves the troubles with an odd number.
pub struct OddSupport {
    name: String,
    next: Option<Rc<dyn Support>>,
}

impl OddSupport {
    pub closed spec fn name(&self) -> Seq<char> {
        self.name@
    }

    /// The support that comes next in the chain.
    pub closed spec fn spec_next(&self) -> Option<Rc<dyn Support>> {
        self.next
    }

    pub fn next(&self) -> (next: &Option<Rc<dyn Support>>)
        ensures
            *next == self.spec_next(),
    {
        &self.next
    }

    pub fn new(name: &str, next: Option<Rc<dyn Support>>) -> (support: Self)
        ensures
            support.name() == name@,
            support.spec_next() == next,
    {
        Self { name: name.to_owned(), next }
    }
}

impl Support for OddSupport {
    open spec fn label(&self) -> Seq<char> {
        support_label(self.name(), "OddSupport"@)
    }

    fn to_string(&self) -> (out: String) {
        support_label_string(self.name.as_str(), "OddSupport")
    }

    open spec fn resolves(&self, number: u32) -> bool {
        number % 2 == 1
    }

    open spec fn support_text(&self, number: u32, trouble: Seq<char>) -> Seq<char> {
        chain_text(self.resolves(number), self.label(), self.spec_next(), number, trouble)
    }

    fn resolve(&self, trouble: &Trouble) -> (resolved: bool) {
        trouble.number() % 2 == 1
    }

    fn support(&self, trouble: &Trouble) -> (out: String) {
        report_or_pass(self.resolve(trouble), self.to_string().as_str(), &self.next, trouble)
    }
}

/// Resolves the trouble with one number.
pub struct SpecialSupport {
    name: String,
    next: Option<Rc<dyn Support>>,
    number: u32,
}

impl SpecialSupport {
    pub closed spec fn name(&self) -> Seq<char> {
        self.name@
    }

    /// The support that comes next in the chain.
    pub closed spec fn spec_next(&self) -> Option<Rc<dyn Support>> {
        self.next
    }

    pub fn next(&self) -> (next: &Option<Rc<dyn Support>>)
        ensures
            *next == self.spec_next(),
    {
        &self.next
    }

    pub closed spec fn number(&self) -> u32 {
        self.number
    }

    pub fn new(name: &str, number: u32, next: Option<Rc<dyn Support>>) -> (support: Self)
        ensures
            support.name() == name@,
            support.number() == number,
            support.spec_next() == next,
    {
        Self { name: name.to_owned(), next, number }
    }
}

impl Support for SpecialSupport {
    open spec fn label(&self) -> Seq<char> {
        support_label(self.name(), "SpecialSupport"@)
    }

    fn to_string(&self) -> (out: String) {
        support_label_string(self.name.as_str(), "SpecialSupport")
    }

    open spec fn resolves(&self, number: u32) -> bool {
        number == self.number()
    }

    open spec fn support_text(&self, number: u32, trouble: Seq<char>) -> Seq<char> {
        chain_text(self.resolves(number), self.label(), self.spec_next(), number, trouble)
    }

    fn resolve(&self, trouble: &Trouble) -> (resolved: bool) {
        trouble.number() == self.number
    }

    fn support(&self, trouble: &Trouble) -> (out: String) {
        report_or_pass(self.resolve(trouble), self.to_string().as_str(), &self.next, trouble)
    }
}

} // verus!
