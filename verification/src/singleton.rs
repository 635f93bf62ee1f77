//! A value of which a program keeps a single instance.

use vstd::prelude::*;
use vstd::string::*;

verus! {

pub struct Singleton {
    name: String,
}

impl Singleton {
    pub closed spec fn spec_name(&self) -> Seq<char> {
        self.name@
    }

    /// The value that the single instance is made of: its name is `TEST`.
    pub fn new() -> (singleton: Self)
        ensures
            singleton.spec_name() == "TEST"@,
    {
        Singleton { name: "TEST".to_owned() }
    }

    pub fn name(&self) -> (name: &str)
        ensures
            name@ == self.spec_name(),
    {
        self.name.as_str()
    }
}

} // verus!
