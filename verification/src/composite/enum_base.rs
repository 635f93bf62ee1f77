//! Entries as a recursive enum: a directory owns its entries.

use crate::composite::{
    entry_label, entry_label_string, entry_line, entry_line_string, entry_path,
    entry_path_string,
};
use vstd::prelude::*;
use vstd::string::*;

verus! {

#[derive(Debug)]
pub struct File {
    name: String,
    size: usize,
}

#[derive(Debug)]
pub struct Directory {
    name: String,
    entries: Vec<Entry>,
}

#[derive(Debug)]
pub enum Entry {
    File(File),
    Directory(Directory),
}

/// The sizes of the first `count` of the entries, added up.
pub open spec fn total_size(entries: Vec<Entry>, count: nat) -> nat
    decreases entries, count,
{
    if count == 0 || count > entries@.len() {
        0
    } else {
        total_size(entries, (count - 1) as nat) + entries[count - 1].size()
    }
}

/// The listings of the first `count` of the entries, one after the other,
/// all under the path `prefix`.
pub open spec fn listings(entries: Vec<Entry>, count: nat, prefix: Seq<char>) -> Seq<char>
    decreases entries, count,
{
    if count == 0 || count > entries@.len() {
        Seq::empty()
    } else {
        listings(entries, (count - 1) as nat, prefix) + entries[count - 1].listing(prefix)
    }
}

/// Adding up more entries gives no less.
pub proof fn lemma_total_size_grows(entries: Vec<Entry>, i: nat, j: nat)
    requires
        i <= j <= entries@.len(),
    ensures
        total_size(entries, i) <= total_size(entries, j),
    decreases j,
{
    if i < j {
        lemma_total_size_grows(entries, i, (j - 1) as nat);
    }
}

impl File {
    pub closed spec fn name(&self) -> Seq<char> {
        self.name@
    }

    pub closed spec fn size(&self) -> nat {
        self.size as nat
    }

    pub fn get_name(&self) -> (name: &str)
        ensures
            name@ == self.name(),
    {
        self.name.as_str()
    }

    pub fn get_size(&self) -> (size: usize)
        ensures
            size == self.size(),
    {
        self.size
    }

    /// The file as it is written: `name (size)`.
    pub fn to_string(&self) -> (out: String)
        ensures
            out@ == entry_label(self.name(), self.size()),
    {
        entry_label_string(self.name.as_str(), self.size)
    }

    pub fn print_line_with_prefix(&self, prefix: &str) -> (out: String)
        ensures
            out@ == entry_line(prefix@, self.name(), self.size()),
    {
        entry_line_string(prefix, self.name.as_str(), self.size)
    }
}

impl Directory {
    pub closed spec fn name(&self) -> Seq<char> {
        self.name@
    }

    pub closed spec fn entries(&self) -> Vec<Entry> {
        self.entries
    }

    /// The size of a directory: the sizes of its entries, added up.
    pub open spec fn size(&self) -> nat {
        total_size(self.entries(), self.entries()@.len())
    }

    /// The listing of a directory under the path `prefix`: its own line,
    /// then the listings of its entries under its own path.
    pub open spec fn listing(&self, prefix: Seq<char>) -> Seq<char> {
        entry_line(prefix, self.name(), self.size()) + listings(
            self.entries(),
            self.entries()@.len(),
            entry_path(prefix, self.name()),
        )
    }

    pub fn get_name(&self) -> (name: &str)
        ensures
            name@ == self.name(),
    {
        self.name.as_str()
    }

    pub fn add(&mut self, entry: Entry)
        ensures
            final(self).entries()@ == old(self).entries()@.push(entry),
            final(self).name() == old(self).name(),
    {
        self.entries.push(entry);
    }

    /// The entry at `index`, to be changed in place: what becomes of it
    /// takes its place in the directory.
    pub fn entry_mut(&mut self, index: usize) -> (entry: &mut Entry)
        requires
            index < old(self).entries()@.len(),
        ensures
            *entry == old(self).entries()@[index as int],
            final(self).entries()@ == old(self).entries()@.update(index as int, *final(entry)),
            final(self).name() == old(self).name(),
    {
        &mut self.entries[index]
    }

    pub fn get_size(&self) -> (size: usize)
        requires
            self.size() <= usize::MAX,
        ensures
            size == self.size(),
        decreases self,
    {
        let n = self.entries.len();
        let mut size: usize = 0;
        let mut i: usize = 0;
        while i < n
            invariant
                i <= n,
                n == self.entries@.len(),
                size == total_size(self.entries, i as nat),
                total_size(self.entries, n as nat) <= usize::MAX,
            decreases n - i,
        {
            proof {
                lemma_total_size_grows(self.entries, (i + 1) as nat, n as nat);
                assert(decreases_to!(*self => self.entries));
                assert(decreases_to!(self.entries => self.entries[i as int]));
            }
            size = size + self.entries[i].get_size();
            i = i + 1;
        }
        size
    }

    /// The directory as it is written: `name (size)`.
    pub fn to_string(&self) -> (out: String)
        requires
            self.size() <= usize::MAX,
        ensures
            out@ == entry_label(self.name(), self.size()),
    {
        entry_label_string(self.name.as_str(), self.get_size())
    }

    pub fn print_line_with_prefix(&self, prefix: &str) -> (out: String)
        requires
            self.size() <= usize::MAX,
        ensures
            out@ == self.listing(prefix@),
        decreases self,
    {
        let mut out = entry_line_string(prefix, self.name.as_str(), self.get_size());
        let path = entry_path_string(prefix, self.name.as_str());
        let n = self.entries.len();
        let mut i: usize = 0;
        while i < n
            invariant
                i <= n,
                n == self.entries@.len(),
                path@ == entry_path(prefix@, self.name()),
                total_size(self.entries, n as nat) <= usize::MAX,
                out@ == entry_line(prefix@, self.name(), self.size()) + listings(
                    self.entries,
                    i as nat,
                    path@,
                ),
            decreases n - i,
        {
            proof {
                lemma_total_size_grows(self.entries, (i + 1) as nat, n as nat);
                assert(decreases_to!(*self => self.entries));
                assert(decreases_to!(self.entries => self.entries[i as int]));
            }
            let s = self.entries[i].print_line_with_prefix(path.as_str());
            out.append(s.as_str());
            i = i + 1;
            assert(out@ =~= entry_line(prefix@, self.name(), self.size()) + listings(
                self.entries,
                i as nat,
                path@,
            ));
        }
        out
    }
}

impl Entry {
    pub open spec fn name(&self) -> Seq<char> {
        match self {
            Entry::File(f) => f.name(),
            Entry::Directory(d) => d.name(),
        }
    }

    /// The size of an entry: that of a file is its own, that of a
    /// directory is the sum of the sizes of its entries.
    pub open spec fn size(&self) -> nat
        decreases self, 0nat,
    {
        match self {
            Entry::File(f) => f.size(),
            Entry::Directory(d) => total_size(d.entries(), d.entries()@.len()),
        }
    }

    /// The listing of an entry under the path `prefix`: its own line and,
    /// for a directory, the listings of its entries under its own path.
    pub open spec fn listing(&self, prefix: Seq<char>) -> Seq<char>
        decreases self, 0nat,
    {
        match self {
            Entry::File(f) => entry_line(prefix, f.name(), f.size()),
            Entry::Directory(d) => entry_line(
                prefix,
                d.name(),
                total_size(d.entries(), d.entries()@.len()),
            ) + listings(d.entries(), d.entries()@.len(), entry_path(prefix, d.name())),
        }
    }

    pub fn of_file(name: &str, size: usize) -> (entry: Self)
        ensures
            entry matches Entry::File(f) && f.name() == name@ && f.size() == size,
    {
        Entry::File(File { name: name.to_owned(), size })
    }

    pub fn of_directory(name: &str) -> (entry: Self)
        ensures
            entry matches Entry::Directory(d) && d.name() == name@ && d.entries()@
                == Seq::<Entry>::empty(),
    {
        Entry::Directory(Directory { name: name.to_owned(), entries: Vec::new() })
    }

    pub fn print_line_with_prefix(&self, prefix: &str) -> (out: String)
        requires
            self.size() <= usize::MAX,
        ensures
            out@ == self.listing(prefix@),
        decreases self,
    {
        match self {
            Entry::File(f) => f.print_line_with_prefix(prefix),
            Entry::Directory(d) => d.print_line_with_prefix(prefix),
        }
    }

    pub fn get_name(&self) -> (name: &str)
        ensures
            name@ == self.name(),
    {
        match self {
            Entry::File(f) => f.get_name(),
            Entry::Directory(d) => d.get_name(),
        }
    }

    pub fn get_size(&self) -> (size: usize)
        requires
            self.size() <= usize::MAX,
        ensures
            size == self.size(),
        decreases self,
    {
        match self {
            Entry::File(f) => f.get_size(),
            Entry::Directory(d) => d.get_size(),
        }
    }

    /// The entry as it is written: `name (size)`.
    pub fn to_string(&self) -> (out: String)
        requires
            self.size() <= usize::MAX,
        ensures
            out@ == entry_label(self.name(), self.size()),
    {
        match self {
            Entry::File(f) => f.to_string(),
            Entry::Directory(d) => d.to_string(),
        }
    }

    /// The listing of the entry and of all that it holds, from the root.
    pub fn print_line(&self) -> (out: String)
        requires
            self.size() <= usize::MAX,
        ensures
            out@ == self.listing(Seq::empty()),
    {
        let prefix = String::new();
        self.print_line_with_prefix(prefix.as_str())
    }

    pub fn as_file(&self) -> (found: Option<&File>)
        ensures
            match self {
                Entry::File(f) => found == Some(f),
                _ => found is None,
            },
    {
        match self {
            Entry::File(d) => Some(d),
            _ => None,
        }
    }

    pub fn as_directory(&self) -> (found: Option<&Directory>)
        ensures
            match self {
                Entry::Directory(d) => found == Some(d),
                _ => found is None,
            },
    {
        match self {
            Entry::Directory(d) => Some(d),
            _ => None,
        }
    }

    pub fn as_directory_mut(&mut self) -> (found: Option<&mut Directory>)
        ensures
            match *old(self) {
                Entry::Directory(before) => found matches Some(d) && *d == before && *final(self)
                    == Entry::Directory(*final(d)),
                _ => found is None && *final(self) == *old(self),
            },
    {
        match self {
            Entry::Directory(d) => Some(d),
            _ => None,
        }
    }
}

} // verus!
