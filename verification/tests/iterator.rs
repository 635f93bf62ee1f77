use design_patterns::iterator::{Book, BookShelf, BookShelfIterator};

#[test]
fn iterator_test() {
    let mut book_shelf = BookShelf::new(4);
    book_shelf.append_book(Book::new("Around the World in 80 Days"));
    book_shelf.append_book(Book::new("Bible"));
    book_shelf.append_book(Book::new("Cinderella"));
    book_shelf.append_book(Book::new("Daddy-Long-Legs"));

    let mut names = Vec::new();
    let mut it = book_shelf.iter();
    while let Some(book) = it.next() {
        println!("{}", book.name());
        names.push(book.name().to_owned());
    }
    assert_eq!(names, vec!["Around the World in 80 Days", "Bible", "Cinderella", "Daddy-Long-Legs"]);
    assert!(it.next().is_none());
    assert!(it.next().is_none());

    let mut second = BookShelfIterator::new(&book_shelf);
    assert_eq!(second.next().unwrap().name(), "Around the World in 80 Days");
    assert_eq!(book_shelf.get_length(), 4);
    assert_eq!(book_shelf.get_book_at(2).name(), "Cinderella");
}

#[test]
fn iterator_shelf_with_elements_counts_none_as_appended() {
    let books = [Book::new("a"), Book::new("b")];
    let mut shelf = BookShelf::with_elements(&books);
    assert_eq!(shelf.get_length(), 0);
    assert_eq!(shelf.get_book_at(1).name(), "b");
    shelf.append_book(Book::new("c"));
    assert_eq!(shelf.get_length(), 1);
    let mut it = shelf.iter();
    let mut count = 0;
    while let Some(_) = it.next() {
        count += 1;
    }
    assert_eq!(count, 3);
    let copy = books[0].clone();
    assert_eq!(copy.name(), "a");
    let empty = BookShelf::new(0);
    assert!(empty.iter().next().is_none());
}
