use vstd::prelude::*;

verus! {

/// One book record. A book has no identity field of its own: its
/// identity is its position in the catalog.
#[derive(Debug)]
pub struct Book {
    pub title: String,
    pub author: String,
    pub pages: u32,
    pub available: bool,
}

/// The two ways a checkout or a return can fail. Both leave the
/// catalog unchanged.
#[derive(Clone, Copy, Debug, PartialEq, Eq, Structural)]
pub enum LibError {
    /// The requested position has no catalog entry.
    IndexOutOfRange,
    /// Checkout of a book that is already out, or return of a book
    /// that is not out.
    InvalidStateTransition,
}

/// The catalog: an ordered sequence of books, addressed by position.
pub struct Library {
    books: Vec<Book>,
}

impl View for Library {
    type V = Seq<Book>;

    closed spec fn view(&self) -> Seq<Book> {
        self.books@
    }
}

/// A checkout of position `p` succeeds exactly when `p` is in bounds
/// and the book there is available.
pub open spec fn checkout_ok(books: Seq<Book>, p: int) -> bool {
    0 <= p < books.len() && books[p].available
}

/// A return of position `p` succeeds exactly when `p` is in bounds
/// and the book there is checked out.
pub open spec fn return_ok(books: Seq<Book>, p: int) -> bool {
    0 <= p < books.len() && !books[p].available
}

/// Which error a failed checkout or return reports: a missing
/// position beats a wrong state.
pub open spec fn position_error(books: Seq<Book>, p: int) -> LibError {
    if !(0 <= p < books.len()) {
        LibError::IndexOutOfRange
    } else {
        LibError::InvalidStateTransition
    }
}

/// The book at `p` with its availability flag replaced; every other
/// field and every other book kept.
pub open spec fn set_available(books: Seq<Book>, p: int, a: bool) -> Seq<Book>
    recommends
        0 <= p < books.len(),
{
    books.update(
        p,
        Book { title: books[p].title, author: books[p].author, pages: books[p].pages, available: a },
    )
}

/// The catalog after a checkout of position `p`: the flag flips
/// true to false when the checkout succeeds, nothing moves otherwise.
pub open spec fn checkout_step(books: Seq<Book>, p: int) -> Seq<Book> {
    if checkout_ok(books, p) {
        set_available(books, p, false)
    } else {
        books
    }
}

/// The catalog after a return of position `p`: the flag flips
/// false to true when the return succeeds, nothing moves otherwise.
pub open spec fn return_step(books: Seq<Book>, p: int) -> Seq<Book> {
    if return_ok(books, p) {
        set_available(books, p, true)
    } else {
        books
    }
}

/// How many books of the sequence are available.
pub open spec fn count_available(books: Seq<Book>) -> nat
    decreases books.len(),
{
    if books.len() == 0 {
        0
    } else {
        count_available(books.drop_last()) + if books.last().available {
            1nat
        } else {
            0nat
        }
    }
}

impl Library {
    /// An empty catalog.
    pub fn new() -> (l: Library)
        ensures
            l@ == Seq::<Book>::empty(),
    {
        Library { books: Vec::new() }
    }

    /// Appends a book at the end of the catalog; no validation.
    pub fn add_book(&mut self, book: Book)
        ensures
            final(self)@ == old(self)@.push(book),
    {
        self.books.push(book);
    }

    /// How many books the catalog holds.
    pub fn book_count(&self) -> (n: usize)
        ensures
            n == self@.len(),
    {
        self.books.len()
    }

    /// The book at position `i`, or `None` past the end.
    pub fn book_at(&self, i: usize) -> (r: Option<&Book>)
        ensures
            match r {
                Some(b) => i < self@.len() && *b == self@[i as int],
                None => i >= self@.len(),
            },
    {
        if i < self.books.len() {
            Some(&self.books[i])
        } else {
            None
        }
    }

    /// Marks the book at `book_index` as checked out. Fails, and
    /// changes nothing, when the position is out of bounds or the
    /// book is already out.
    pub fn checkout_book(&mut self, book_index: usize) -> (r: Result<(), LibError>)
        ensures
            final(self)@ == checkout_step(old(self)@, book_index as int),
            r == (if checkout_ok(old(self)@, book_index as int) {
                Ok::<(), LibError>(())
            } else {
                Err::<(), LibError>(position_error(old(self)@, book_index as int))
            }),
    {
        if book_index < self.books.len() {
            if self.books[book_index].available {
                self.books[book_index].available = false;
                assert(self@ =~= checkout_step(old(self)@, book_index as int));
                Ok(())
            } else {
                Err(LibError::InvalidStateTransition)
            }
        } else {
            Err(LibError::IndexOutOfRange)
        }
    }

    /// Marks the book at `book_index` as available again. Fails, and
    /// changes nothing, when the position is out of bounds or the
    /// book is not out.
    pub fn return_book(&mut self, book_index: usize) -> (r: Result<(), LibError>)
        ensures
            final(self)@ == return_step(old(self)@, book_index as int),
            r == (if return_ok(old(self)@, book_index as int) {
                Ok::<(), LibError>(())
            } else {
                Err::<(), LibError>(position_error(old(self)@, book_index as int))
            }),
    {
        if book_index < self.books.len() {
            if !self.books[book_index].available {
                self.books[book_index].available = true;
                assert(self@ =~= return_step(old(self)@, book_index as int));
                Ok(())
            } else {
                Err(LibError::InvalidStateTransition)
            }
        } else {
            Err(LibError::IndexOutOfRange)
        }
    }

    /// Linear scan counting the available books.
    pub fn get_available_books_number(&self) -> (n: usize)
        ensures
            n == count_available(self@),
    {
        let mut n: usize = 0;
        let mut i: usize = 0;
        while i < self.books.len()
            invariant
                i <= self.books.len(),
                n == count_available(self@.take(i as int)),
                n <= i,
            decreases self.books.len() - i,
        {
            proof {
                assert(self@.take(i + 1).drop_last() =~= self@.take(i as int));
                assert(self@.take(i + 1).last() == self@[i as int]);
            }
            if self.books[i].available {
                n = n + 1;
            }
            i = i + 1;
        }
        proof {
            assert(self@.take(self@.len() as int) =~= self@);
        }
        n
    }
}

/// Law: checking out an available book succeeds and flips its flag to
/// checked-out; an immediate second checkout of the same position
/// fails with a state error and changes nothing.
pub proof fn lemma_checkout_twice(books: Seq<Book>, p: int)
    requires
        0 <= p < books.len(),
        books[p].available,
    ensures
        checkout_ok(books, p),
        !checkout_step(books, p)[p].available,
        !checkout_ok(checkout_step(books, p), p),
        position_error(checkout_step(books, p), p) == LibError::InvalidStateTransition,
        checkout_step(checkout_step(books, p), p) == checkout_step(books, p),
{
}

/// Law: returning a checked-out book succeeds and flips its flag back
/// to available; an immediate second return of the same position
/// fails with a state error and changes nothing.
pub proof fn lemma_return_twice(books: Seq<Book>, p: int)
    requires
        0 <= p < books.len(),
        !books[p].available,
    ensures
        return_ok(books, p),
        return_step(books, p)[p].available,
        !return_ok(return_step(books, p), p),
        position_error(return_step(books, p), p) == LibError::InvalidStateTransition,
        return_step(return_step(books, p), p) == return_step(books, p),
{
}

/// Law: a position past the end of the catalog makes both checkout
/// and return fail with an index error, and the whole catalog is left
/// exactly as it was.
pub proof fn lemma_invalid_position(books: Seq<Book>, p: int)
    requires
        p >= books.len(),
    ensures
        !checkout_ok(books, p),
        !return_ok(books, p),
        checkout_step(books, p) == books,
        return_step(books, p) == books,
        position_error(books, p) == LibError::IndexOutOfRange,
{
}

} // verus!
