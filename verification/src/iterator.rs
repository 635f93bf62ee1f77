//! A book shelf and an iterator over its books.

use vstd::prelude::*;
use vstd::string::*;

verus! {

pub struct Book {
    name: String,
}

impl Book {
    pub closed spec fn spec_name(&self) -> Seq<char> {
        self.name@
    }

    pub fn new(name: &str) -> (book: Self)
        ensures
            book.spec_name() == name@,
    {
        Self { name: name.to_owned() }
    }

    pub fn name(&self) -> (name: &str)
        ensures
            name@ == self.spec_name(),
    {
        self.name.as_str()
    }
}

impl Clone for Book {
    fn clone(&self) -> (book: Self)
        ensures
            book == *self,
    {
        Book { name: self.name.clone() }
    }
}

/// A shelf of books. It counts the books that were appended to it, which
/// are never more than the books that it holds.
pub struct BookShelf {
    values: Vec<Book>,
    last: usize,
}

impl BookShelf {
    /// The books on the shelf, in their order.
    pub closed spec fn books(&self) -> Seq<Book> {
        self.values@
    }

    /// The number of books that were appended.
    pub closed spec fn appended(&self) -> nat {
        self.last as nat
    }

    /// No more books were appended than the shelf holds.
    pub open spec fn wf(&self) -> bool {
        self.appended() <= self.books().len()
    }

    pub fn new(capacity: usize) -> (shelf: Self)
        ensures
            shelf.books() == Seq::<Book>::empty(),
            shelf.appended() == 0,
            shelf.wf(),
    {
        Self { values: Vec::with_capacity(capacity), last: 0 }
    }

    /// A shelf that holds copies of the given books; none of them counts
    /// as appended.
    pub fn with_elements(values: &[Book]) -> (shelf: Self)
        ensures
            shelf.books() == values@,
            shelf.appended() == 0,
            shelf.wf(),
    {
        let mut books: Vec<Book> = Vec::new();
        let n = values.len();
        let mut i: usize = 0;
        while i < n
            invariant
                i <= n,
                n == values@.len(),
                books@ == values@.take(i as int),
            decreases n - i,
        {
            books.push(values[i].clone());
            i = i + 1;
            assert(books@ =~= values@.take(i as int));
        }
        assert(values@.take(n as int) =~= values@);
        Self { values: books, last: 0 }
    }

    pub fn get_book_at(&self, index: usize) -> (book: &Book)
        requires
            index < self.books().len(),
        ensures
            *book == self.books()[index as int],
    {
        &self.values[index]
    }

    pub fn append_book(&mut self, book: Book)
        requires
            old(self).wf(),
        ensures
            final(self).books() == old(self).books().push(book),
            final(self).appended() == old(self).appended() + 1,
            final(self).wf(),
    {
        self.values.push(book);
        let held = self.values.len();
        assert(self.last < held);
        self.last += 1;
    }

    /// The number of books that were appended.
    pub fn get_length(&self) -> (length: usize)
        ensures
            length == self.appended(),
    {
        self.last
    }

    pub fn iter(&self) -> (iterator: BookShelfIterator<'_>)
        ensures
            iterator.shelf() == self,
            iterator.index() == 0,
    {
        BookShelfIterator::new(self)
    }
}

/// A position on a shelf, from which the books that follow are handed
/// out one by one.
pub struct BookShelfIterator<'a> {
    book_shelf: &'a BookShelf,
    index: usize,
}

impl<'a> BookShelfIterator<'a> {
    pub closed spec fn shelf(&self) -> &'a BookShelf {
        self.book_shelf
    }

    pub closed spec fn index(&self) -> nat {
        self.index as nat
    }

    pub fn new(book_shelf: &'a BookShelf) -> (iterator: Self)
        ensures
            iterator.shelf() == book_shelf,
            iterator.index() == 0,
    {
        Self { book_shelf, index: 0 }
    }

    /// The book at the position, after which the position moves on; `None`
    /// at the end of the shelf, where the position stays.
    pub fn next(&mut self) -> (book: Option<&'a Book>)
        ensures
            final(self).shelf() == old(self).shelf(),
            old(self).index() < old(self).shelf().books().len() ==> {
                &&& book == Some(&old(self).shelf().books()[old(self).index() as int])
                &&& final(self).index() == old(self).index() + 1
            },
            old(self).index() >= old(self).shelf().books().len() ==> {
                &&& book is None
                &&& final(self).index() == old(self).index()
            },
    {
        if self.index < self.book_shelf.values.len() {
            let t = Some(&self.book_shelf.values[self.index]);
            self.index += 1;
            t
        } else {
            None
        }
    }
}

} // verus!
