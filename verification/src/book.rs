//! The catalog: book records, identifier assignment and borrowing.

use vstd::prelude::*;

verus! {

/// Largest number of books a catalog can hold: identifiers and the counter
/// behind them are single bytes, and the counter must stay representable
/// after the last registration.
pub const MAX_BOOKS: u8 = 255;

/// Lifecycle status of a record.
#[derive(Clone, Copy, Debug, PartialEq, Eq, Structural)]
pub enum BookStatus {
    Active,
    Deleted,
}

/// General book information.
#[derive(Debug)]
pub struct Book {
    pub name: String,
}

impl View for Book {
    type V = Seq<char>;

    open spec fn view(&self) -> Seq<char> {
        self.name@
    }
}

/// Mathematical content of one catalogued book.
pub struct BookRecord {
    pub title: Seq<char>,
    pub identifier: nat,
    pub author_identifier: nat,
    pub borrow_count: nat,
    pub is_borrowed: bool,
    pub status: BookStatus,
}

/// A book as the catalog stores it.
#[derive(Debug)]
pub struct LibBook {
    pub book_details: Book,
    book_id: u8,
    pub author_id: u8,
    no_of_borrow: u8,
    is_borrowed: bool,
    status: BookStatus,
}

impl View for LibBook {
    type V = BookRecord;

    closed spec fn view(&self) -> BookRecord {
        BookRecord {
            title: self.book_details@,
            identifier: self.book_id as nat,
            author_identifier: self.author_id as nat,
            borrow_count: self.no_of_borrow as nat,
            is_borrowed: self.is_borrowed,
            status: self.status,
        }
    }
}

impl LibBook {
    /// The book's title.
    pub fn title(&self) -> (title: &str)
        ensures
            title@ == self@.title,
    {
        self.book_details.name.as_str()
    }

    /// The author the book was registered under.
    pub fn author(&self) -> (author: u8)
        ensures
            author == self@.author_identifier,
    {
        self.author_id
    }

    /// The identifier the catalog assigned at registration.
    pub fn book_id(&self) -> (id: u8)
        ensures
            id == self@.identifier,
    {
        self.book_id
    }

    /// How many times the book has been lent out.
    pub fn no_of_borrow(&self) -> (count: u8)
        ensures
            count == self@.borrow_count,
    {
        self.no_of_borrow
    }

    /// Whether the book is currently lent out.
    pub fn is_borrowed(&self) -> (borrowed: bool)
        ensures
            borrowed == self@.is_borrowed,
    {
        self.is_borrowed
    }

    /// The record's lifecycle status.
    pub fn status(&self) -> (status: BookStatus)
        ensures
            status == self@.status,
    {
        self.status
    }
}

/// The record a registration creates: never lent, active.
pub open spec fn fresh_record(title: Seq<char>, identifier: nat, author_identifier: nat) -> BookRecord {
    BookRecord {
        title,
        identifier,
        author_identifier,
        borrow_count: 0,
        is_borrowed: false,
        status: BookStatus::Active,
    }
}

/// What a successful borrow makes of a record.
pub open spec fn lent(record: BookRecord) -> BookRecord {
    BookRecord { borrow_count: record.borrow_count + 1, is_borrowed: true, ..record }
}

/// Validity of a catalog's records: each identifier is the record's position
/// in registration order, there are at most `MAX_BOOKS` of them, and a
/// record has been lent once if it is out and never otherwise.
///
/// So in a valid catalog the first record that carries an identifier, and
/// the only one, is the record at that position. The predicates below look
/// there.
pub open spec fn records_wf(books: Seq<BookRecord>) -> bool {
    &&& books.len() <= MAX_BOOKS
    &&& forall|i: int|
        0 <= i < books.len() ==> {
            &&& (#[trigger] books[i]).identifier == i
            &&& books[i].borrow_count == if books[i].is_borrowed { 1nat } else { 0nat }
        }
}

/// The catalog after registering a book.
pub open spec fn register(books: Seq<BookRecord>, title: Seq<char>, author_identifier: nat) -> Seq<
    BookRecord,
> {
    books.push(fresh_record(title, books.len(), author_identifier))
}

/// `i` is the position of the first record that carries `identifier`.
pub open spec fn is_first_match(books: Seq<BookRecord>, identifier: nat, i: int) -> bool {
    &&& 0 <= i < books.len()
    &&& books[i].identifier == identifier
    &&& forall|j: int| 0 <= j < i ==> (#[trigger] books[j]).identifier != identifier
}

/// No record answers to `identifier`: none carries it, or the one that does
/// is deleted.
pub open spec fn is_missing(books: Seq<BookRecord>, identifier: nat) -> bool {
    identifier >= books.len() || books[identifier as int].status == BookStatus::Deleted
}

/// The record under `identifier` is active and already lent out.
pub open spec fn is_taken(books: Seq<BookRecord>, identifier: nat) -> bool {
    &&& identifier < books.len()
    &&& books[identifier as int].status == BookStatus::Active
    &&& books[identifier as int].is_borrowed
}

/// The record under `identifier` is active and on the shelf.
pub open spec fn is_available(books: Seq<BookRecord>, identifier: nat) -> bool {
    &&& identifier < books.len()
    &&& books[identifier as int].status == BookStatus::Active
    &&& !books[identifier as int].is_borrowed
}

/// The catalog after an attempt to borrow `identifier`: an available record
/// is lent, and nothing else changes.
pub open spec fn borrow(books: Seq<BookRecord>, identifier: nat) -> Seq<BookRecord> {
    if is_available(books, identifier) {
        books.update(identifier as int, lent(books[identifier as int]))
    } else {
        books
    }
}

/// How a borrow attempt ended.
#[derive(Debug)]
pub enum BookState<'a> {
    /// The book was on the shelf and is now lent; carries its details.
    Found(&'a Book),
    /// No such book.
    NotFound,
    /// The book is already lent out.
    Borrowed,
}

impl<'a> BookState<'a> {
    /// Whether this is how an attempt to borrow `identifier` from `books`
    /// ends: found with the record's title where it is available, not found
    /// where it is missing, borrowed where it is taken.
    pub open spec fn is_outcome_of(self, books: Seq<BookRecord>, identifier: nat) -> bool {
        match self {
            BookState::Found(book) => {
                &&& is_available(books, identifier)
                &&& book@ == books[identifier as int].title
            },
            BookState::NotFound => is_missing(books, identifier),
            BookState::Borrowed => is_taken(books, identifier),
        }
    }
}

/// The catalog: every registered book in registration order, and the
/// identifier the next registration will get.
pub struct Library {
    books: Vec<LibBook>,
    last_book_id: u8,
}

impl View for Library {
    type V = Seq<BookRecord>;

    closed spec fn view(&self) -> Seq<BookRecord> {
        Seq::new(self.books@.len(), |i: int| self.books@[i]@)
    }
}

impl Library {
    /// The identifier that the next registration assigns.
    pub closed spec fn next_identifier(&self) -> nat {
        self.last_book_id as nat
    }

    /// Validity: the records are valid and the counter equals the number of
    /// books ever registered.
    pub open spec fn wf(&self) -> bool {
        &&& records_wf(self@)
        &&& self.next_identifier() == self@.len()
    }

    /// Creates an empty catalog.
    pub fn new() -> (library: Library)
        ensures
            library.wf(),
            library@ == Seq::<BookRecord>::empty(),
    {
        let library = Library { books: Vec::new(), last_book_id: 0 };
        library
    }

    /// The identifier that the next registration assigns.
    pub fn get_last_id(&self) -> (id: u8)
        ensures
            id == self.next_identifier(),
    {
        self.last_book_id
    }

    /// Whether the catalog has reached `MAX_BOOKS` and can take no more.
    pub fn is_full(&self) -> (full: bool)
        requires
            self.wf(),
        ensures
            full == (self@.len() == MAX_BOOKS),
    {
        self.last_book_id == MAX_BOOKS
    }

    /// Registers a new book under the next identifier and returns its record.
    pub fn register_new_book(&mut self, name: String, author_id: u8) -> (record: &LibBook)
        requires
            old(self).wf(),
            old(self)@.len() < MAX_BOOKS,
        ensures
            final(self).wf(),
            final(self)@ == register(old(self)@, name@, author_id as nat),
            record@ == fresh_record(name@, old(self)@.len(), author_id as nat),
    {
        let new_book = LibBook {
            book_details: Book { name },
            book_id: self.get_last_id(),
            author_id,
            no_of_borrow: 0,
            is_borrowed: false,
            status: BookStatus::Active,
        };
        self.last_book_id += 1;
        self.books.push(new_book);
        assert(self@ =~= register(old(self)@, name@, author_id as nat));
        let last = self.books.len() - 1;
        &self.books[last]
    }

    /// Lends the book registered under `book_id` if it is there and on the
    /// shelf. The first record that carries the identifier decides: a
    /// deleted one counts as absent, a lent one is refused, and any other
    /// is marked lent with its count raised by one.
    pub fn borrow_book(&mut self, book_id: u8) -> (state: BookState<'_>)
        requires
            old(self).wf(),
        ensures
            final(self).wf(),
            final(self)@ == borrow(old(self)@, book_id as nat),
            state.is_outcome_of(old(self)@, book_id as nat),
    {
        let mut i: usize = 0;
        while i < self.books.len() && self.books[i].book_id != book_id
            invariant
                *self == *old(self),
                i <= self.books.len(),
                forall|j: int| 0 <= j < i ==> (#[trigger] self.books@[j]).book_id != book_id,
            decreases self.books.len() - i,
        {
            i += 1;
        }
        if i == self.books.len() {
            assert(book_id as nat >= self@.len()) by {
                if (book_id as nat) < self@.len() {
                }
            }
            return BookState::NotFound;
        }
        assert(self@[i as int].identifier == i);
        if self.books[i].status == BookStatus::Deleted {
            return BookState::NotFound;
        }
        if self.books[i].is_borrowed {
            return BookState::Borrowed;
        }
        let bk = &mut self.books[i];
        bk.no_of_borrow += 1;
        bk.is_borrowed = true;
        assert(self@ =~= borrow(old(self)@, book_id as nat));
        BookState::Found(&self.books[i].book_details)
    }

    /// Every record, in registration order.
    pub fn list_of_books(&self) -> (books: &Vec<LibBook>)
        ensures
            books@.len() == self@.len(),
            forall|i: int| 0 <= i < books@.len() ==> (#[trigger] books@[i])@ == self@[i],
    {
        &self.books
    }
}

} // verus!
