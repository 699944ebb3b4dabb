//! A row of the table as the store hands it out, and how rows become books.

use crate::book::lemma_parse_of_text;
use crate::book::Book;
use crate::book::BookView;
use crate::book::ReadState;
use vstd::prelude::*;

verus! {

/// A row with its texts as sequences of characters.
pub struct RowView {
    pub book: Seq<char>,
    pub author: Seq<char>,
    pub read_state: Seq<char>,
    pub starred: int,
}

/// One row of the table, column by column, before any of it is interpreted.
#[derive(Clone, Debug, PartialEq, Eq)]
pub struct StoredRow {
    pub book: String,
    pub author: String,
    pub read_state: String,
    pub starred: i32,
}

impl View for StoredRow {
    type V = RowView;

    open spec fn view(&self) -> RowView {
        RowView {
            book: self.book@,
            author: self.author@,
            read_state: self.read_state@,
            starred: self.starred as int,
        }
    }
}

/// The number that the table keeps for the starred flag.
pub open spec fn cell_of_flag(starred: bool) -> int {
    if starred {
        1
    } else {
        0
    }
}

/// The starred flag that a number of the table stands for: one is starred,
/// every other number is not.
pub open spec fn flag_of_cell(cell: int) -> bool {
    cell == 1
}

/// The book that a row stands for.
pub open spec fn decoded(row: RowView) -> BookView {
    BookView {
        name: row.book,
        author: row.author,
        read_state: ReadState::parse(row.read_state),
        starred: flag_of_cell(row.starred),
    }
}

/// The row that stands for a book.
pub open spec fn encoded(book: BookView) -> RowView {
    RowView {
        book: book.name,
        author: book.author,
        read_state: book.read_state.text(),
        starred: cell_of_flag(book.starred),
    }
}

/// The books of the rows, the last row first. The table hands its rows out
/// oldest first, so this is the order newest first.
pub open spec fn newest_first(rows: Seq<RowView>) -> Seq<BookView> {
    Seq::new(rows.len(), |i: int| decoded(rows[rows.len() - 1 - i]))
}

/// The books of a vector, each by its view.
pub open spec fn views(books: Seq<Book>) -> Seq<BookView> {
    Seq::new(books.len(), |i: int| books[i]@)
}

/// The rows of a vector, each by its view.
pub open spec fn row_views(rows: Seq<StoredRow>) -> Seq<RowView> {
    Seq::new(rows.len(), |i: int| rows[i]@)
}

/// The number that the table keeps for the starred flag.
pub fn starred_cell(starred: bool) -> (cell: i32)
    ensures
        cell == cell_of_flag(starred),
{
    match starred {
        true => 1,
        false => 0,
    }
}

/// The starred flag that a number of the table stands for.
pub fn starred_flag(cell: i32) -> (starred: bool)
    ensures
        starred == flag_of_cell(cell as int),
{
    cell == 1
}

/// The book that a row stands for: the name and the author as they are, the
/// reading state read from its text, starred where the number is one.
pub fn book_from_row(row: StoredRow) -> (book: Book)
    ensures
        book@ == decoded(row@),
{
    let read_state = ReadState::from(row.read_state.as_str());
    let starred = starred_flag(row.starred);
    Book::from(row.book, row.author, read_state, starred)
}

/// The books of the rows, newest first, where the rows come oldest first.
pub fn books_from_rows(rows: Vec<StoredRow>) -> (books: Vec<Book>)
    ensures
        views(books@) == newest_first(row_views(rows@)),
{
    let ghost all = rows@;
    let mut rows = rows;
    let mut books: Vec<Book> = Vec::new();
    while rows.len() > 0
        invariant
            rows@.len() + books@.len() == all.len(),
            rows@ == all.subrange(0, rows@.len() as int),
            forall|i: int|
                0 <= i < books@.len() ==> (#[trigger] books@[i])@ == decoded(
                    all[all.len() - 1 - i]@,
                ),
        decreases rows.len(),
    {
        let ghost before = rows@;
        let row = rows.pop().unwrap();
        assert(row == all[all.len() - 1 - books@.len()]) by {
            assert(row == before[before.len() - 1]);
        }
        let book = book_from_row(row);
        books.push(book);
        assert(rows@ =~= all.subrange(0, rows@.len() as int));
    }
    assert(views(books@) =~= newest_first(row_views(all)));
    books
}

/// A row that is added at the end of the table comes first in the listing,
/// and the books that were listed before follow it in their order.
pub proof fn lemma_added_row_is_listed_first(rows: Seq<RowView>, row: RowView)
    ensures
        newest_first(rows.push(row)) == seq![decoded(row)] + newest_first(rows),
        newest_first(rows.push(row)).first() == decoded(row),
{
    assert(newest_first(rows.push(row)) =~= seq![decoded(row)] + newest_first(rows));
}

/// Of two rows added one after the other, the second is listed before the
/// first.
pub proof fn lemma_second_row_before_first(rows: Seq<RowView>, first: RowView, second: RowView)
    ensures
        newest_first(rows.push(first).push(second))[0] == decoded(second),
        newest_first(rows.push(first).push(second))[1] == decoded(first),
{
}

/// A book that is written as a row and read again is the same book.
pub proof fn lemma_decoded_of_encoded(book: BookView)
    ensures
        decoded(encoded(book)) == book,
{
    lemma_parse_of_text(book.read_state);
}

/// The flag that is read from the number written for a flag is that flag,
/// so a flag that is turned over twice, each time read from the table and
/// written back, is what it was at first.
pub proof fn lemma_flag_of_cell_of_flag(starred: bool, cell: int)
    ensures
        flag_of_cell(cell_of_flag(starred)) == starred,
        flag_of_cell(cell_of_flag(!flag_of_cell(cell))) == !flag_of_cell(cell),
        flag_of_cell(cell_of_flag(!flag_of_cell(cell_of_flag(!flag_of_cell(cell)))))
            == flag_of_cell(cell),
{
}

} // verus!
