//! The statements that the store runs: for each operation the SQL text and
//! the values bound to its named parameters.

use crate::book::Book;
use crate::book::BookView;
use crate::book::ReadState;
use crate::row::cell_of_flag;
use crate::row::encoded;
use crate::row::starred_cell;
use vstd::prelude::*;

verus! {

pub const CREATE_TABLE: &'static str =
    "CREATE TABLE books (book TEXT NOT NULL, author TEXT NOT NULL, read_state TEXT NOT NULL, starred BOOL NOT NULL, PRIMARY KEY (book, author));";

pub const RENAME_LEGACY_STATES: &'static str =
    "UPDATE books SET read_state = 'Completed' WHERE read_state = 'Read'; UPDATE books SET read_state = 'WishToRead' WHERE read_state = 'NotRead'; UPDATE books SET read_state = 'NotCompleted' WHERE read_state = 'PartialRead';";

pub const INSERT_BOOK: &'static str =
    "INSERT INTO books (book, author, read_state, starred) VALUES (@book, @author, @read_state, @starred)";

pub const SELECT_BOOKS: &'static str = "SELECT * FROM books";

pub const DELETE_BOOK: &'static str = "DELETE FROM books WHERE book = @book AND author = @author";

pub const SELECT_STARRED: &'static str =
    "SELECT starred FROM books WHERE book = @book AND author = @author";

pub const UPDATE_STARRED: &'static str =
    "UPDATE books SET starred = @starred WHERE book = @book AND author = @author";

pub const SELECT_READ_STATE: &'static str =
    "SELECT read_state FROM books WHERE book = @book AND author = @author";

pub const UPDATE_READ_STATE: &'static str =
    "UPDATE books SET read_state = @read_state WHERE book = @book AND author = @author";

pub const SEARCH_BOOKS: &'static str =
    "SELECT * FROM books WHERE book LIKE @keyword ESCAPE '\\' OR author LIKE @keyword ESCAPE '\\'";

/// A statement with its texts as sequences of characters.
pub struct StatementView {
    pub sql: Seq<char>,
    pub texts: Seq<(Seq<char>, Seq<char>)>,
    pub integers: Seq<(Seq<char>, int)>,
    pub columns: Seq<Seq<char>>,
}

/// One statement: its SQL text, the texts and the integers that are bound
/// to its parameters, each with the parameter's name, and the names of the
/// columns that are read from each row of its answer, none for a statement
/// that is not a query.
pub struct Statement<'a> {
    pub sql: &'a str,
    pub texts: Vec<(&'a str, &'a str)>,
    pub integers: Vec<(&'a str, i32)>,
    pub columns: Vec<&'a str>,
}

impl<'a> View for Statement<'a> {
    type V = StatementView;

    open spec fn view(&self) -> StatementView {
        StatementView {
            sql: self.sql@,
            texts: Seq::new(self.texts@.len(), |i: int| (self.texts@[i].0@, self.texts@[i].1@)),
            integers: Seq::new(
                self.integers@.len(),
                |i: int| (self.integers@[i].0@, self.integers@[i].1 as int),
            ),
            columns: Seq::new(self.columns@.len(), |i: int| self.columns@[i]@),
        }
    }
}

/// The two bindings that pick the book of a name and an author.
pub open spec fn key_of(name: Seq<char>, author: Seq<char>) -> Seq<(Seq<char>, Seq<char>)> {
    seq![("@book"@, name), ("@author"@, author)]
}

/// The four columns of a book's row, in the order in which a row is read:
/// the name, the author, the reading state, the starred number.
pub open spec fn book_columns_of() -> Seq<Seq<char>> {
    seq!["book"@, "author"@, "read_state"@, "starred"@]
}

/// What `select_books_statement` gives.
pub open spec fn select_books_of() -> StatementView {
    StatementView { sql: SELECT_BOOKS@, texts: seq![], integers: seq![], columns: book_columns_of() }
}

/// What `insert_statement` gives: the four columns of the row that stands
/// for the book, each bound to its parameter.
pub open spec fn insert_book_of(book: BookView) -> StatementView {
    let row = encoded(book);
    StatementView {
        sql: INSERT_BOOK@,
        texts: key_of(row.book, row.author).push(("@read_state"@, row.read_state)),
        integers: seq![("@starred"@, row.starred)],
        columns: seq![],
    }
}

/// What `delete_statement` gives.
pub open spec fn delete_of(name: Seq<char>, author: Seq<char>) -> StatementView {
    StatementView {
        sql: DELETE_BOOK@,
        texts: key_of(name, author),
        integers: seq![],
        columns: seq![],
    }
}

/// What `select_starred_statement` gives: the starred number is read.
pub open spec fn select_starred_of(name: Seq<char>, author: Seq<char>) -> StatementView {
    StatementView {
        sql: SELECT_STARRED@,
        texts: key_of(name, author),
        integers: seq![],
        columns: seq!["starred"@],
    }
}

/// What `select_read_state_statement` gives: the text of the reading state
/// is read.
pub open spec fn select_read_state_of(name: Seq<char>, author: Seq<char>) -> StatementView {
    StatementView {
        sql: SELECT_READ_STATE@,
        texts: key_of(name, author),
        integers: seq![],
        columns: seq!["read_state"@],
    }
}

/// What `update_starred_statement` gives.
pub open spec fn update_starred_of(
    name: Seq<char>,
    author: Seq<char>,
    starred: bool,
) -> StatementView {
    StatementView {
        sql: UPDATE_STARRED@,
        texts: key_of(name, author),
        integers: seq![("@starred"@, cell_of_flag(starred))],
        columns: seq![],
    }
}

/// What `update_read_state_statement` gives.
pub open spec fn update_read_state_of(
    name: Seq<char>,
    author: Seq<char>,
    read_state: ReadState,
) -> StatementView {
    StatementView {
        sql: UPDATE_READ_STATE@,
        texts: key_of(name, author).push(("@read_state"@, read_state.text())),
        integers: seq![],
        columns: seq![],
    }
}

/// What `search_statement` gives for a pattern.
pub open spec fn search_books_of(pattern: Seq<char>) -> StatementView {
    StatementView {
        sql: SEARCH_BOOKS@,
        texts: seq![("@keyword"@, pattern)],
        integers: seq![],
        columns: book_columns_of(),
    }
}

fn key<'a>(name: &'a str, author: &'a str) -> (texts: Vec<(&'a str, &'a str)>)
    ensures
        texts@.len() == 2,
        texts@[0].0@ == "@book"@,
        texts@[0].1@ == name@,
        texts@[1].0@ == "@author"@,
        texts@[1].1@ == author@,
{
    let mut texts: Vec<(&'a str, &'a str)> = Vec::new();
    texts.push(("@book", name));
    texts.push(("@author", author));
    texts
}

fn book_columns<'a>() -> (columns: Vec<&'a str>)
    ensures
        columns@.len() == 4,
        columns@[0]@ == "book"@,
        columns@[1]@ == "author"@,
        columns@[2]@ == "read_state"@,
        columns@[3]@ == "starred"@,
{
    let mut columns: Vec<&'a str> = Vec::new();
    columns.push("book");
    columns.push("author");
    columns.push("read_state");
    columns.push("starred");
    columns
}

fn one_column<'a>(name: &'a str) -> (columns: Vec<&'a str>)
    ensures
        columns@.len() == 1,
        columns@[0]@ == name@,
{
    let mut columns: Vec<&'a str> = Vec::new();
    columns.push(name);
    columns
}

/// The statement that reads every row of the table.
pub fn select_books_statement() -> (statement: Statement<'static>)
    ensures
        statement@ == select_books_of(),
{
    let statement = Statement {
        sql: SELECT_BOOKS,
        texts: Vec::new(),
        integers: Vec::new(),
        columns: book_columns(),
    };
    assert(statement@.texts =~= seq![]);
    assert(statement@.integers =~= seq![]);
    assert(statement@.columns =~= book_columns_of());
    statement
}

/// The statement that adds `book` as a new row.
pub fn insert_statement<'a>(book: &'a Book) -> (statement: Statement<'a>)
    ensures
        statement@ == insert_book_of(book@),
{
    let mut texts = key(book.name.as_str(), book.author.as_str());
    texts.push(("@read_state", book.read_state.as_str()));
    let mut integers: Vec<(&'a str, i32)> = Vec::new();
    integers.push(("@starred", starred_cell(book.starred)));
    let statement = Statement { sql: INSERT_BOOK, texts, integers, columns: Vec::new() };
    assert(statement@.texts =~= insert_book_of(book@).texts);
    assert(statement@.integers =~= insert_book_of(book@).integers);
    assert(statement@.columns =~= seq![]);
    statement
}

/// The statement that removes the book of a name and an author.
pub fn delete_statement<'a>(name: &'a str, author: &'a str) -> (statement: Statement<'a>)
    ensures
        statement@ == delete_of(name@, author@),
{
    let statement = Statement {
        sql: DELETE_BOOK,
        texts: key(name, author),
        integers: Vec::new(),
        columns: Vec::new(),
    };
    assert(statement@.texts =~= key_of(name@, author@));
    assert(statement@.integers =~= seq![]);
    assert(statement@.columns =~= seq![]);
    statement
}

/// The statement that reads the starred number of a book.
pub fn select_starred_statement<'a>(name: &'a str, author: &'a str) -> (statement: Statement<'a>)
    ensures
        statement@ == select_starred_of(name@, author@),
{
    let statement = Statement {
        sql: SELECT_STARRED,
        texts: key(name, author),
        integers: Vec::new(),
        columns: one_column("starred"),
    };
    assert(statement@.texts =~= key_of(name@, author@));
    assert(statement@.integers =~= seq![]);
    assert(statement@.columns =~= seq!["starred"@]);
    statement
}

/// The statement that writes the starred flag of a book.
pub fn update_starred_statement<'a>(name: &'a str, author: &'a str, starred: bool) -> (statement:
    Statement<'a>)
    ensures
        statement@ == update_starred_of(name@, author@, starred),
{
    let mut integers: Vec<(&'a str, i32)> = Vec::new();
    integers.push(("@starred", starred_cell(starred)));
    let statement = Statement {
        sql: UPDATE_STARRED,
        texts: key(name, author),
        integers,
        columns: Vec::new(),
    };
    assert(statement@.texts =~= key_of(name@, author@));
    assert(statement@.integers =~= update_starred_of(name@, author@, starred).integers);
    assert(statement@.columns =~= seq![]);
    statement
}

/// The statement that reads the reading state of a book.
pub fn select_read_state_statement<'a>(name: &'a str, author: &'a str) -> (statement: Statement<
    'a,
>)
    ensures
        statement@ == select_read_state_of(name@, author@),
{
    let statement = Statement {
        sql: SELECT_READ_STATE,
        texts: key(name, author),
        integers: Vec::new(),
        columns: one_column("read_state"),
    };
    assert(statement@.texts =~= key_of(name@, author@));
    assert(statement@.integers =~= seq![]);
    assert(statement@.columns =~= seq!["read_state"@]);
    statement
}

/// The statement that writes the reading state of a book.
pub fn update_read_state_statement<'a>(
    name: &'a str,
    author: &'a str,
    read_state: ReadState,
) -> (statement: Statement<'a>)
    ensures
        statement@ == update_read_state_of(name@, author@, read_state),
{
    let mut texts = key(name, author);
    texts.push(("@read_state", read_state.as_str()));
    let statement = Statement {
        sql: UPDATE_READ_STATE,
        texts,
        integers: Vec::new(),
        columns: Vec::new(),
    };
    assert(statement@.texts =~= update_read_state_of(name@, author@, read_state).texts);
    assert(statement@.integers =~= seq![]);
    assert(statement@.columns =~= seq![]);
    statement
}

/// The statement that reads the rows whose name or author matches the
/// pattern.
pub fn search_statement<'a>(pattern: &'a str) -> (statement: Statement<'a>)
    ensures
        statement@ == search_books_of(pattern@),
{
    let mut texts: Vec<(&'a str, &'a str)> = Vec::new();
    texts.push(("@keyword", pattern));
    let statement = Statement {
        sql: SEARCH_BOOKS,
        texts,
        integers: Vec::new(),
        columns: book_columns(),
    };
    assert(statement@.texts =~= search_books_of(pattern@).texts);
    assert(statement@.integers =~= seq![]);
    assert(statement@.columns =~= book_columns_of());
    statement
}

} // verus!
