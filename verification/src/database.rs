//! The store: the table of books in an SQLite database, its migration, and
//! the operations on it.

use crate::book::lemma_parse_of_text;
use crate::book::Book;
use crate::book::ReadState;
use crate::migration::journal_mode;
use crate::migration::migration_from;
use crate::migration::migration_sql;
use crate::migration::version_marker;
use crate::migration::version_query;
use crate::migration::CURRENT_DB_VERSION;
use crate::row::books_from_rows;
use crate::row::cell_of_flag;
use crate::row::flag_of_cell;
use crate::row::newest_first;
use crate::row::row_views;
use crate::row::starred_flag;
use crate::row::views;
use crate::row::StoredRow;
use crate::sqlite::begin;
use crate::sqlite::commit;
use crate::sqlite::connection_of;
use crate::sqlite::execute;
use crate::sqlite::execute_batch;
use crate::sqlite::open;
use crate::sqlite::query_integer;
use crate::sqlite::query_number;
use crate::sqlite::query_rows;
use crate::sqlite::query_text;
use crate::sqlite::set_pragma_number;
use crate::sqlite::set_pragma_text;
use crate::statement::delete_statement;
use crate::statement::insert_statement;
use crate::statement::search_statement;
use crate::statement::select_books_statement;
use crate::statement::select_read_state_statement;
use crate::statement::select_starred_statement;
use crate::statement::update_read_state_statement;
use crate::statement::update_starred_statement;
use crate::statement::update_read_state_of;
use crate::statement::update_starred_of;
use crate::statement::Statement;
use crate::statement::StatementView;
use crate::text::like_pattern;
use rusqlite::Connection;
use std::path::Path;
use vstd::prelude::*;

verus! {

/// The name of the database file inside the application's data directory.
pub const DATABASE_FILE: &'static str = "books.sqlite";

/// Why an operation of the store failed.
#[derive(Debug)]
pub enum StoreError {
    /// The table has no book of the given name and author.
    NotFound,
    /// SQLite reported a failure, among them a second book of a name and an
    /// author that the table already holds.
    Sqlite(rusqlite::Error),
}

/// What a statement's answer means for the operation that ran it: it
/// succeeds whatever the number of rows that were changed, none included,
/// and fails with what SQLite reported.
pub open spec fn done_of(answer: Result<usize, rusqlite::Error>) -> Result<(), StoreError> {
    match answer {
        Ok(_) => Ok(()),
        Err(error) => Err(StoreError::Sqlite(error)),
    }
}

/// What the answer to a query for rows means: the books of the rows, newest
/// first.
pub open spec fn listed_of(
    answer: Result<Vec<StoredRow>, rusqlite::Error>,
    outcome: Result<Vec<Book>, StoreError>,
) -> bool {
    match answer {
        Ok(rows) => outcome matches Ok(books) && views(books@) == newest_first(row_views(rows@)),
        Err(error) => outcome == Err::<Vec<Book>, StoreError>(StoreError::Sqlite(error)),
    }
}

/// What the answer to the query for a book's starred number means: the
/// flag of the number, and no such book where there was no row.
pub open spec fn starred_of(answer: Result<Option<i32>, rusqlite::Error>) -> Result<
    bool,
    StoreError,
> {
    match answer {
        Ok(Some(cell)) => Ok(flag_of_cell(cell as int)),
        Ok(None) => Err(StoreError::NotFound),
        Err(error) => Err(StoreError::Sqlite(error)),
    }
}

/// What the answer to the query for a book's reading state means: the state
/// that follows the one read from the text, and no such book where there
/// was no row.
pub open spec fn following_of(answer: Result<Option<String>, rusqlite::Error>) -> Result<
    ReadState,
    StoreError,
> {
    match answer {
        Ok(Some(text)) => Ok(ReadState::parse(text@).successor()),
        Ok(None) => Err(StoreError::NotFound),
        Err(error) => Err(StoreError::Sqlite(error)),
    }
}

/// The outcome of an operation that ran one statement.
pub fn done(answer: Result<usize, rusqlite::Error>) -> (outcome: Result<(), StoreError>)
    ensures
        outcome == done_of(answer),
{
    match answer {
        Ok(_) => Ok(()),
        Err(error) => Err(StoreError::Sqlite(error)),
    }
}

/// The books of the rows that a query gave, newest first.
pub fn listed(answer: Result<Vec<StoredRow>, rusqlite::Error>) -> (outcome: Result<
    Vec<Book>,
    StoreError,
>)
    ensures
        listed_of(answer, outcome),
{
    match answer {
        Ok(rows) => Ok(books_from_rows(rows)),
        Err(error) => Err(StoreError::Sqlite(error)),
    }
}

/// The starred flag of the book that a query looked for.
pub fn starred(answer: Result<Option<i32>, rusqlite::Error>) -> (outcome: Result<bool, StoreError>)
    ensures
        outcome == starred_of(answer),
{
    match answer {
        Ok(Some(cell)) => Ok(starred_flag(cell)),
        Ok(None) => Err(StoreError::NotFound),
        Err(error) => Err(StoreError::Sqlite(error)),
    }
}

/// The reading state that the book that a query looked for gets next.
pub fn following(answer: Result<Option<String>, rusqlite::Error>) -> (outcome: Result<
    ReadState,
    StoreError,
>)
    ensures
        outcome == following_of(answer),
{
    match answer {
        Ok(Some(text)) => {
            let mut read_state = ReadState::from(text.as_str());
            read_state.next();
            Ok(read_state)
        },
        Ok(None) => Err(StoreError::NotFound),
        Err(error) => Err(StoreError::Sqlite(error)),
    }
}

/// What the answer to the query for a book's starred number means for
/// `toggle_starred`: the statement that writes the opposite of the flag
/// read, for the same name and author, and no statement where there was no
/// row or the query failed.
pub open spec fn toggled_of(
    answer: Result<Option<i32>, rusqlite::Error>,
    name: Seq<char>,
    author: Seq<char>,
) -> Result<StatementView, StoreError> {
    match starred_of(answer) {
        Ok(flag) => Ok(update_starred_of(name, author, !flag)),
        Err(error) => Err(error),
    }
}

/// What the answer to the query for a book's reading state means for
/// `change_read_state`: the statement that writes the state that follows
/// the one read, for the same name and author, and no statement where
/// there was no row or the query failed.
pub open spec fn advanced_of(
    answer: Result<Option<String>, rusqlite::Error>,
    name: Seq<char>,
    author: Seq<char>,
) -> Result<StatementView, StoreError> {
    match following_of(answer) {
        Ok(read_state) => Ok(update_read_state_of(name, author, read_state)),
        Err(error) => Err(error),
    }
}

/// What `toggle_starred` returns for the answers of SQLite: where the
/// read gave a row, what the write's answer means, and else the failure of
/// the read, with no write.
pub open spec fn toggle_outcome_of(
    read: Result<Option<i32>, rusqlite::Error>,
    written: Result<usize, rusqlite::Error>,
    name: Seq<char>,
    author: Seq<char>,
) -> Result<(), StoreError> {
    match toggled_of(read, name, author) {
        Ok(_) => done_of(written),
        Err(error) => Err(error),
    }
}

/// What `change_read_state` returns for the answers of SQLite: where the
/// read gave a row, what the write's answer means, and else the failure of
/// the read, with no write.
pub open spec fn advance_outcome_of(
    read: Result<Option<String>, rusqlite::Error>,
    written: Result<usize, rusqlite::Error>,
    name: Seq<char>,
    author: Seq<char>,
) -> Result<(), StoreError> {
    match advanced_of(read, name, author) {
        Ok(_) => done_of(written),
        Err(error) => Err(error),
    }
}

/// What is to be written for a book whose starred number was asked for.
pub fn toggled<'a>(
    answer: Result<Option<i32>, rusqlite::Error>,
    name: &'a str,
    author: &'a str,
) -> (step: Result<Statement<'a>, StoreError>)
    ensures
        match toggled_of(answer, name@, author@) {
            Ok(view) => step matches Ok(statement) && statement@ == view,
            Err(error) => step matches Err(e) && e == error,
        },
{
    match starred(answer) {
        Ok(flag) => Ok(update_starred_statement(name, author, !flag)),
        Err(error) => Err(error),
    }
}

/// What is to be written for a book whose reading state was asked for.
pub fn advanced<'a>(
    answer: Result<Option<String>, rusqlite::Error>,
    name: &'a str,
    author: &'a str,
) -> (step: Result<Statement<'a>, StoreError>)
    ensures
        match advanced_of(answer, name@, author@) {
            Ok(view) => step matches Ok(statement) && statement@ == view,
            Err(error) => step matches Err(e) && e == error,
        },
{
    match following(answer) {
        Ok(read_state) => Ok(update_read_state_statement(name, author, read_state)),
        Err(error) => Err(error),
    }
}

/// Adds `book` to the table. Fails where the table already holds a book of
/// the same name and author, which SQLite decides: the outcome is what
/// `done` makes of SQLite's answer to `insert_statement`.
pub fn add_book(db: &Connection, book: &Book) -> (outcome: Result<(), StoreError>)
    ensures
        exists|answer: Result<usize, rusqlite::Error>| outcome == #[trigger] done_of(answer),
        outcome is Err ==> outcome matches Err(StoreError::Sqlite(_)),
{
    let statement = insert_statement(book);
    let answer = execute(db, &statement);
    let ghost answered = answer;
    let outcome = done(answer);
    assert(outcome == done_of(answered));
    outcome
}

/// All books of the table, newest first: the outcome is what `listed`
/// makes of SQLite's answer to `select_books_statement`.
pub fn get_books(db: &Connection) -> (outcome: Result<Vec<Book>, StoreError>)
    ensures
        exists|answer: Result<Vec<StoredRow>, rusqlite::Error>| #[trigger]
            listed_of(answer, outcome),
        outcome is Err ==> outcome matches Err(StoreError::Sqlite(_)),
{
    let statement = select_books_statement();
    let answer = query_rows(db, &statement);
    let ghost answered = answer;
    let outcome = listed(answer);
    assert(listed_of(answered, outcome));
    outcome
}

/// Removes the book of a name and an author. Succeeds also where the table
/// has no such book: the outcome is what `done` makes of SQLite's answer to
/// `delete_statement`.
pub fn delete_book(db: &Connection, book: &str, author: &str) -> (outcome: Result<(), StoreError>)
    ensures
        exists|answer: Result<usize, rusqlite::Error>| outcome == #[trigger] done_of(answer),
        outcome is Err ==> outcome matches Err(StoreError::Sqlite(_)),
{
    let statement = delete_statement(book, author);
    let answer = execute(db, &statement);
    let ghost answered = answer;
    let outcome = done(answer);
    assert(outcome == done_of(answered));
    outcome
}

/// The starred flag of the book of a name and an author, as the table
/// holds it: the outcome is what `starred` makes of SQLite's answer to
/// `select_starred_statement`.
pub fn get_starred_value(db: &Connection, book: &str, author: &str) -> (outcome: Result<
    bool,
    StoreError,
>)
    ensures
        exists|answer: Result<Option<i32>, rusqlite::Error>|
            outcome == #[trigger] starred_of(answer),
{
    let statement = select_starred_statement(book, author);
    let answer = query_integer(db, &statement);
    let ghost answered = answer;
    let outcome = starred(answer);
    assert(outcome == starred_of(answered));
    outcome
}

/// Turns the starred flag of a book over: reads it, then writes the
/// opposite. Fails with `NotFound` where the table has no such book, and
/// then writes nothing. The outcome is what `toggle_outcome_of` makes of
/// SQLite's answers: to `select_starred_statement`, and to the statement
/// that `toggled` makes of the first answer.
pub fn toggle_starred(db: &Connection, book: &str, author: &str) -> (outcome: Result<
    (),
    StoreError,
>)
    ensures
        exists|read: Result<Option<i32>, rusqlite::Error>, written: Result<usize, rusqlite::Error>|
            outcome == #[trigger] toggle_outcome_of(read, written, book@, author@),
{
    let asked = select_starred_statement(book, author);
    let read = query_integer(db, &asked);
    let ghost read_answer = read;
    match toggled(read, book, author) {
        Ok(statement) => {
            let written = execute(db, &statement);
            let ghost written_answer = written;
            let outcome = done(written);
            assert(outcome == toggle_outcome_of(read_answer, written_answer, book@, author@));
            outcome
        },
        Err(error) => {
            assert(Err::<(), StoreError>(error) == toggle_outcome_of(
                read_answer,
                Ok(0),
                book@,
                author@,
            ));
            Err(error)
        },
    }
}

/// The reading state that follows the one that the table holds for the
/// book of a name and an author: the outcome is what `following` makes of
/// SQLite's answer to `select_read_state_statement`.
pub fn get_next_read_state(db: &Connection, book: &str, author: &str) -> (outcome: Result<
    ReadState,
    StoreError,
>)
    ensures
        exists|answer: Result<Option<String>, rusqlite::Error>|
            outcome == #[trigger] following_of(answer),
{
    let statement = select_read_state_statement(book, author);
    let answer = query_text(db, &statement);
    let ghost answered = answer;
    let outcome = following(answer);
    assert(outcome == following_of(answered));
    outcome
}

/// Moves the reading state of a book one step along the cycle: reads it,
/// then writes the state that follows. Fails with `NotFound` where the
/// table has no such book, and then writes nothing. The outcome is what
/// `advance_outcome_of` makes of SQLite's answers: to
/// `select_read_state_statement`, and to the statement that `advanced`
/// makes of the first answer.
pub fn change_read_state(db: &Connection, book: &str, author: &str) -> (outcome: Result<
    (),
    StoreError,
>)
    ensures
        exists|read: Result<Option<String>, rusqlite::Error>, written: Result<usize, rusqlite::Error>|
            outcome == #[trigger] advance_outcome_of(read, written, book@, author@),
{
    let asked = select_read_state_statement(book, author);
    let read = query_text(db, &asked);
    let ghost read_answer = read;
    match advanced(read, book, author) {
        Ok(statement) => {
            let written = execute(db, &statement);
            let ghost written_answer = written;
            let outcome = done(written);
            assert(outcome == advance_outcome_of(read_answer, written_answer, book@, author@));
            outcome
        },
        Err(error) => {
            assert(Err::<(), StoreError>(error) == advance_outcome_of(
                read_answer,
                Ok(0),
                book@,
                author@,
            ));
            Err(error)
        },
    }
}

/// The books in whose name or author `keyword` occurs, newest first: the
/// outcome is what `listed` makes of SQLite's answer to `search_statement`
/// for the pattern that `like_pattern` makes of the keyword.
pub fn search(db: &Connection, keyword: &str) -> (outcome: Result<Vec<Book>, StoreError>)
    ensures
        exists|answer: Result<Vec<StoredRow>, rusqlite::Error>| #[trigger]
            listed_of(answer, outcome),
        outcome is Err ==> outcome matches Err(StoreError::Sqlite(_)),
{
    let pattern = like_pattern(keyword);
    let statement = search_statement(pattern.as_str());
    let answer = query_rows(db, &statement);
    let ghost answered = answer;
    let outcome = listed(answer);
    assert(listed_of(answered, outcome));
    outcome
}

/// Brings a database of `existing_version` up to the current version, in
/// one transaction that also writes the new version: the table is created
/// in a new database, the earlier names of the reading states are
/// rewritten in an older one. Where a step fails the transaction is rolled
/// back. A database that needs no migration is a success without any call
/// on the connection, which is handed back as it came.
pub fn upgrade_database_if_needed(db: &mut Connection, existing_version: u32) -> (outcome: Result<
    (),
    StoreError,
>)
    ensures
        existing_version >= CURRENT_DB_VERSION ==> outcome is Ok && *final(db) == *old(db),
        outcome is Err ==> outcome matches Err(StoreError::Sqlite(_)),
{
    match migration_from(existing_version) {
        None => Ok(()),
        Some(migration) => {
            if let Err(error) = set_pragma_text(db, journal_mode()) {
                return Err(StoreError::Sqlite(error));
            }
            let transaction = match begin(db) {
                Ok(transaction) => transaction,
                Err(error) => {
                    return Err(StoreError::Sqlite(error));
                },
            };
            let inside = connection_of(&transaction);
            if let Err(error) = set_pragma_number(inside, version_marker()) {
                return Err(StoreError::Sqlite(error));
            }
            if let Err(error) = execute_batch(inside, migration_sql(migration)) {
                return Err(StoreError::Sqlite(error));
            }
            match commit(transaction) {
                Ok(()) => Ok(()),
                Err(error) => Err(StoreError::Sqlite(error)),
            }
        },
    }
}

/// Opens the database file at `sqlite_path`, creating it where there is
/// none, and brings it up to the current version.
pub fn initialize_database(sqlite_path: &Path) -> (outcome: Result<Connection, StoreError>)
    ensures
        outcome is Err ==> outcome matches Err(StoreError::Sqlite(_)),
{
    let mut db = match open(sqlite_path) {
        Ok(db) => db,
        Err(error) => {
            return Err(StoreError::Sqlite(error));
        },
    };
    let existing_user_version = match query_number(&db, version_query()) {
        Ok(version) => version,
        Err(error) => {
            return Err(StoreError::Sqlite(error));
        },
    };
    match upgrade_database_if_needed(&mut db, existing_user_version) {
        Ok(()) => Ok(db),
        Err(error) => Err(error),
    }
}

/// An operation whose statement ran is a success whatever the number of
/// rows that it changed: removing a book that the table does not hold is no
/// failure.
pub proof fn lemma_no_row_changed_is_success(changed: usize)
    ensures
        done_of(Ok(changed)) == Ok::<(), StoreError>(()),
{
}

/// Where the table has no row for a name and an author, both the starred
/// flag and the next reading state are reported as not found, so that
/// nothing is written for a book that the table does not hold.
pub proof fn lemma_missing_book_is_not_found()
    ensures
        starred_of(Ok(None)) == Err::<bool, StoreError>(StoreError::NotFound),
        following_of(Ok(None)) == Err::<ReadState, StoreError>(StoreError::NotFound),
{
}

/// The reading state that is written for a book is read back as that
/// state, so the state that is written next is its successor: four steps
/// through the table lead back to the first state.
pub proof fn lemma_written_state_is_followed(
    state: ReadState,
    text: String,
    name: Seq<char>,
    author: Seq<char>,
)
    requires
        text@ == state.text(),
    ensures
        following_of(Ok(Some(text))) == Ok::<ReadState, StoreError>(state.successor()),
        advanced_of(Ok(Some(text)), name, author) == Ok::<StatementView, StoreError>(
            update_read_state_of(name, author, state.successor()),
        ),
{
    lemma_parse_of_text(state);
}

/// Turning the starred flag over writes the opposite of what was read, and
/// turning over what was written writes what was read at first: two
/// toggles of a book give its flag back.
pub proof fn lemma_toggled_twice(cell: i32, written: i32, name: Seq<char>, author: Seq<char>)
    requires
        written == cell_of_flag(!flag_of_cell(cell as int)),
    ensures
        toggled_of(Ok(Some(cell)), name, author) == Ok::<StatementView, StoreError>(
            update_starred_of(name, author, !flag_of_cell(cell as int)),
        ),
        toggled_of(Ok(Some(written)), name, author) == Ok::<StatementView, StoreError>(
            update_starred_of(name, author, flag_of_cell(cell as int)),
        ),
{
}

} // verus!
