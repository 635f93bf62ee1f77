//! Entries behind a trait; a directory holds entries of one type, chosen
//! at compile time.

use crate::composite::{
    entry_label, entry_label_string, entry_line, entry_line_string, entry_path,
    entry_path_string,
};
use vstd::prelude::*;
use vstd::string::*;

verus! {

/// Something with a name and a size that can be listed.
pub trait Entry {
    spec fn name(&self) -> Seq<char>;

    spec fn size(&self) -> nat;

    /// The listing of the entry under the path `prefix`.
    spec fn listing(&self, prefix: Seq<char>) -> Seq<char>;

    fn get_name(&self) -> (name: &str)
        ensures
            name@ == self.name(),
    ;

    fn get_size(&self) -> (size: usize)
        requires
            self.size() <= usize::MAX,
        ensures
            size == self.size(),
    ;

    fn print_line_with_prefix(&self, prefix: &str) -> (out: String)
        requires
            self.size() <= usize::MAX,
        ensures
            out@ == self.listing(prefix@),
    ;

    /// The entry as it is written: `name (size)`.
    fn to_string(&self) -> (out: String)
        requires
            self.size() <= usize::MAX,
        ensures
            out@ == entry_label(self.name(), self.size()),
    {
        entry_label_string(self.get_name(), self.get_size())
    }

    /// The listing of the entry and of all that it holds, from the root.
    fn print_line(&self) -> (out: String)
        requires
            self.size() <= usize::MAX,
        ensures
            out@ == self.listing(Seq::empty()),
    {
        let prefix = String::new();
        self.print_line_with_prefix(prefix.as_str())
    }
}

/// The sizes of the entries, added up.
pub open spec fn total_size<E: Entry>(entries: Seq<E>) -> nat
    decreases entries.len(),
{
    if entries.len() == 0 {
        0
    } else {
        total_size(entries.drop_last()) + entries.last().size()
    }
}

/// The listings of the entries, one after the other, all under the path
/// `prefix`.
pub open spec fn listings<E: Entry>(entries: Seq<E>, prefix: Seq<char>) -> Seq<char>
    decreases entries.len(),
{
    if entries.len() == 0 {
        Seq::empty()
    } else {
        listings(entries.drop_last(), prefix) + entries.last().listing(prefix)
    }
}

/// Adding up more entries gives no less.
pub proof fn lemma_total_size_grows<E: Entry>(entries: Seq<E>, i: int)
    requires
        0 <= i <= entries.len(),
    ensures
        total_size(entries.take(i)) <= total_size(entries),
    decreases entries.len(),
{
    if i < entries.len() {
        lemma_total_size_grows(entries.drop_last(), i);
        assert(entries.drop_last().take(i) =~= entries.take(i));
    } else {
        assert(entries.take(i) =~= entries);
    }
}

#[derive(Debug)]
pub struct File {
    name: String,
    size: usize,
}

impl File {
    pub fn new(name: &str, size: usize) -> (file: Self)
        ensures
            file.name() == name@,
            file.size() == size,
    {
        Self { name: name.to_owned(), size }
    }
}

impl Entry for File {
    closed spec fn name(&self) -> Seq<char> {
        self.name@
    }

    closed spec fn size(&self) -> nat {
        self.size as nat
    }

    open spec fn listing(&self, prefix: Seq<char>) -> Seq<char> {
        entry_line(prefix, self.name(), self.size())
    }

    fn get_name(&self) -> (name: &str) {
        self.name.as_str()
    }

    fn get_size(&self) -> (size: usize) {
        self.size
    }

    fn print_line_with_prefix(&self, prefix: &str) -> (out: String) {
        entry_line_string(prefix, self.name.as_str(), self.size)
    }
}

#[derive(Debug)]
pub struct Directory<E: Entry> {
    name: String,
    entries: Vec<E>,
}

impl<E: Entry> Directory<E> {
    pub closed spec fn entries(&self) -> Seq<E> {
        self.entries@
    }

    pub fn new(name: &str) -> (directory: Self)
        ensures
            directory.name() == name@,
            directory.entries() == Seq::<E>::empty(),
    {
        Self { name: name.to_owned(), entries: Vec::new() }
    }

    pub fn add(&mut self, entry: E)
        ensures
            final(self).entries() == old(self).entries().push(entry),
            final(self).name() == old(self).name(),
    {
        self.entries.push(entry);
    }

    /// The entry at `index`, to be changed in place: what becomes of it
    /// takes its place in the directory.
    pub fn entry_mut(&mut self, index: usize) -> (entry: &mut E)
        requires
            index < old(self).entries().len(),
        ensures
            *entry == old(self).entries()[index as int],
            final(self).entries() == old(self).entries().update(index as int, *final(entry)),
            final(self).name() == old(self).name(),
    {
        &mut self.entries[index]
    }
}

impl<E: Entry> Entry for Directory<E> {
    closed spec fn name(&self) -> Seq<char> {
        self.name@
    }

    /// The size of a directory: the sizes of its entries, added up.
    open spec fn size(&self) -> nat {
        total_size(self.entries())
    }

    /// The listing of a directory under the path `prefix`: its own line,
    /// then the listings of its entries under its own path.
    open spec fn listing(&self, prefix: Seq<char>) -> Seq<char> {
        entry_line(prefix, self.name(), self.size()) + listings(
            self.entries(),
            entry_path(prefix, self.name()),
        )
    }

    fn get_name(&self) -> (name: &str) {
        self.name.as_str()
    }

    fn get_size(&self) -> (size: usize) {
        let n = self.entries.len();
        let mut size: usize = 0;
        let mut i: usize = 0;
        assert(self.entries@.take(0) =~= Seq::<E>::empty());
        while i < n
            invariant
                i <= n,
                n == self.entries@.len(),
                size == total_size(self.entries@.take(i as int)),
                total_size(self.entries@) <= usize::MAX,
            decreases n - i,
        {
            proof {
                lemma_total_size_grows(self.entries@, i as int + 1);
                assert(self.entries@.take(i as int + 1).drop_last() =~= self.entries@.take(
                    i as int,
                ));
            }
            size = size + self.entries[i].get_size();
            i = i + 1;
        }
        assert(self.entries@.take(n as int) =~= self.entries@);
        size
    }

    fn print_line_with_prefix(&self, prefix: &str) -> (out: String) {
        let mut out = entry_line_string(prefix, self.name.as_str(), self.get_size());
        let path = entry_path_string(prefix, self.name.as_str());
        let n = self.entries.len();
        let mut i: usize = 0;
        assert(self.entries@.take(0) =~= Seq::<E>::empty());
        assert(out@ =~= entry_line(prefix@, self.name(), self.size()) + listings(
            self.entries@.take(0),
            path@,
        ));
        while i < n
            invariant
                i <= n,
                n == self.entries@.len(),
                path@ == entry_path(prefix@, self.name()),
                total_size(self.entries@) <= usize::MAX,
                out@ == entry_line(prefix@, self.name(), self.size()) + listings(
                    self.entries@.take(i as int),
                    path@,
                ),
            decreases n - i,
        {
            proof {
                lemma_total_size_grows(self.entries@, i as int + 1);
                assert(self.entries@.take(i as int + 1).drop_last() =~= self.entries@.take(
                    i as int,
                ));
            }
            let s = self.entries[i].print_line_with_prefix(path.as_str());
            out.append(s.as_str());
            i = i + 1;
            assert(out@ =~= entry_line(prefix@, self.name(), self.size()) + listings(
                self.entries@.take(i as int),
                path@,
            ));
        }
        assert(self.entries@.take(n as int) =~= self.entries@);
        out
    }
}

} // verus!
