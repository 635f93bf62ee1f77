//! Big characters that are loaded once and then shared by all the strings
//! that show them.

use crate::handles::share;
use std::collections::HashMap;
use std::rc::Rc;
use vstd::prelude::*;
use vstd::string::*;

verus! {

/// A character with the picture that shows it in large.
#[derive(Debug)]
pub struct BigChar {
    char_name: char,
    font_data: String,
}

impl BigChar {
    pub closed spec fn char_name(&self) -> char {
        self.char_name
    }

    pub closed spec fn font_data(&self) -> Seq<char> {
        self.font_data@
    }

    pub fn new(char_name: char, font_data: String) -> (big_char: Self)
        ensures
            big_char.char_name() == char_name,
            big_char.font_data() == font_data@,
    {
        Self { char_name, font_data }
    }

    /// The picture of the character.
    pub fn to_string(&self) -> (out: String)
        ensures
            out@ == self.font_data(),
    {
        self.font_data.clone()
    }
}

/// `big_char` stands for `c`, with a picture that `load` may give for it.
pub open spec fn loaded<F: Fn(char) -> String>(load: &F, c: char, big_char: Rc<BigChar>) -> bool {
    &&& big_char.char_name() == c
    &&& exists|font_data: String|
        #[trigger] load.ensures((c,), font_data) && big_char.font_data() == font_data@
}

/// Hands out big characters, and keeps each one that it has handed out,
/// so that no character is loaded twice.
#[derive(Debug)]
pub struct BigCharFactory {
    pool: HashMap<u32, Rc<BigChar>>,
}

impl BigCharFactory {
    /// The big character that the factory keeps for `c`, if it keeps one.
    pub closed spec fn kept(&self, c: char) -> Option<Rc<BigChar>> {
        if self.pool@.contains_key(c as u32) {
            Some(self.pool@[c as u32])
        } else {
            None
        }
    }

    /// Every big character that the factory keeps is kept for its own
    /// character.
    pub open spec fn wf(&self) -> bool {
        forall|c: char| (#[trigger] self.kept(c)) matches Some(big_char) ==> big_char.char_name() == c
    }

    pub fn new() -> (factory: Self)
        ensures
            forall|c: char| (#[trigger] factory.kept(c)) is None,
            factory.wf(),
    {
        Self { pool: HashMap::new() }
    }

    /// The big character for `char_name`: the one that the factory keeps,
    /// or else a new one with the picture that `load` gives, which the
    /// factory keeps from then on. Nothing else that it keeps changes.
    pub fn get_big_char<F: Fn(char) -> String>(&mut self, char_name: char, load: &F) -> (big_char:
        Rc<BigChar>)
        requires
            load.requires((char_name,)),
        ensures
            final(self).kept(char_name) == Some(big_char),
            forall|c: char| c != char_name ==> #[trigger] final(self).kept(c) == old(self).kept(c),
            match old(self).kept(char_name) {
                Some(kept) => big_char == kept,
                None => loaded(load, char_name, big_char),
            },
            old(self).wf() ==> final(self).wf(),
    {
        broadcast use vstd::std_specs::hash::group_hash_axioms;

        let key = char_name as u32;
        if !self.pool.contains_key(&key) {
            let font_data = load(char_name);
            let made = Rc::new(BigChar::new(char_name, font_data));
            self.pool.insert(key, share(&made));
            assert forall|c: char| c != char_name implies #[trigger] self.kept(c) == old(self).kept(
                c,
            ) by {
                lemma_char_key(c, char_name);
            }
            made
        } else {
            let found = self.pool.get(&key);
            share(found.unwrap())
        }
    }
}

/// Different characters have different numbers.
pub proof fn lemma_char_key(a: char, b: char)
    ensures
        a != b ==> a as u32 != b as u32,
{
    if a as u32 == b as u32 {
        assert(a as u32 as char == a);
        assert(b as u32 as char == b);
    }
}

/// A string shown in big characters.
#[derive(Debug)]
pub struct BigString {
    big_chars: Vec<Rc<BigChar>>,
}

/// The pictures of the big characters, one after the other.
pub open spec fn pictures(big_chars: Seq<Rc<BigChar>>) -> Seq<char>
    decreases big_chars.len(),
{
    if big_chars.len() == 0 {
        Seq::empty()
    } else {
        pictures(big_chars.drop_last()) + big_chars.last().font_data()
    }
}

impl BigString {
    pub closed spec fn big_chars(&self) -> Seq<Rc<BigChar>> {
        self.big_chars@
    }

    /// The big characters of `string`, all from `factory`: each is the
    /// one that the factory keeps for its character afterwards, so equal
    /// characters share one big character, and `load` is asked only for
    /// characters that the factory did not keep.
    pub fn new<F: Fn(char) -> String>(string: &str, factory: &mut BigCharFactory, load: &F) -> (big_string:
        Self)
        requires
            forall|c: char| #[trigger] load.requires((c,)),
        ensures
            big_string.big_chars().len() == string@.len(),
            forall|i: int|
                0 <= i < string@.len() ==> final(factory).kept(string@[i]) == Some(
                    #[trigger] big_string.big_chars()[i],
                ),
            forall|c: char|
                (#[trigger] old(factory).kept(c)) is Some ==> final(factory).kept(c) == old(
                    factory,
                ).kept(c),
            forall|c: char|
                old(factory).kept(c) is None && (#[trigger] final(factory).kept(c)) is Some
                    ==> loaded(load, c, final(factory).kept(c)->0),
            old(factory).wf() ==> final(factory).wf(),
    {
        let mut big_chars: Vec<Rc<BigChar>> = Vec::new();
        let n = string.unicode_len();
        let mut i: usize = 0;
        while i < n
            invariant
                i <= n,
                n == string@.len(),
                big_chars@.len() == i,
                forall|c: char| #[trigger] load.requires((c,)),
                forall|k: int|
                    0 <= k < i ==> factory.kept(string@[k]) == Some(#[trigger] big_chars@[k]),
                forall|c: char|
                    (#[trigger] old(factory).kept(c)) is Some ==> factory.kept(c) == old(
                        factory,
                    ).kept(c),
                forall|c: char|
                    old(factory).kept(c) is None && (#[trigger] factory.kept(c)) is Some ==> loaded(
                        load,
                        c,
                        factory.kept(c)->0,
                    ),
                old(factory).wf() ==> factory.wf(),
            decreases n - i,
        {
            let c = string.get_char(i);
            let ghost before = *factory;
            let bc = factory.get_big_char(c, load);
            proof {
                assert forall|k: int| 0 <= k < i implies factory.kept(string@[k]) == Some(
                    #[trigger] big_chars@[k],
                ) by {
                    if string@[k] != c {
                        assert(factory.kept(string@[k]) == before.kept(string@[k]));
                    }
                }
            }
            big_chars.push(bc);
            i = i + 1;
        }
        Self { big_chars }
    }

    /// The pictures of all the characters, one after the other.
    pub fn to_string(&self) -> (out: String)
        ensures
            out@ == pictures(self.big_chars()),
    {
        let mut out = String::new();
        let n = self.big_chars.len();
        let mut i: usize = 0;
        assert(self.big_chars@.take(0) =~= Seq::<Rc<BigChar>>::empty());
        while i < n
            invariant
                i <= n,
                n == self.big_chars@.len(),
                out@ == pictures(self.big_chars@.take(i as int)),
            decreases n - i,
        {
            out.append(self.big_chars[i].font_data.as_str());
            assert(self.big_chars@.take(i as int + 1).drop_last() =~= self.big_chars@.take(
                i as int,
            ));
            i = i + 1;
        }
        assert(self.big_chars@.take(n as int) =~= self.big_chars@);
        out
    }
}

} // verus!
