use book_tracker::book::Book;
use book_tracker::book::ReadState;
use book_tracker::database::advanced;
use book_tracker::database::done;
use book_tracker::database::following;
use book_tracker::database::listed;
use book_tracker::database::starred;
use book_tracker::database::toggled;
use book_tracker::database::StoreError;
use book_tracker::database::DATABASE_FILE;
use book_tracker::migration::journal_mode;
use book_tracker::migration::migration_from;
use book_tracker::migration::migration_sql;
use book_tracker::migration::version_marker;
use book_tracker::migration::version_query;
use book_tracker::migration::Migration;
use book_tracker::migration::CURRENT_DB_VERSION;
use book_tracker::row::book_from_row;
use book_tracker::row::books_from_rows;
use book_tracker::row::starred_cell;
use book_tracker::row::starred_flag;
use book_tracker::row::StoredRow;
use book_tracker::statement::delete_statement;
use book_tracker::statement::insert_statement;
use book_tracker::statement::search_statement;
use book_tracker::statement::select_books_statement;
use book_tracker::statement::select_read_state_statement;
use book_tracker::statement::select_starred_statement;
use book_tracker::statement::update_read_state_statement;
use book_tracker::statement::update_starred_statement;
use book_tracker::statement::CREATE_TABLE;
use book_tracker::statement::RENAME_LEGACY_STATES;

fn row(book: &str, author: &str, read_state: &str, starred: i32) -> StoredRow {
    StoredRow {
        book: book.to_string(),
        author: author.to_string(),
        read_state: read_state.to_string(),
        starred,
    }
}

fn book(name: &str, author: &str, read_state: ReadState, starred: bool) -> Book {
    Book::from(name.to_string(), author.to_string(), read_state, starred)
}

#[test]
fn starred_is_kept_as_one_and_zero() {
    assert_eq!(starred_cell(true), 1);
    assert_eq!(starred_cell(false), 0);
}

#[test]
fn only_one_reads_as_starred() {
    assert!(starred_flag(1));
    assert!(!starred_flag(0));
    assert!(!starred_flag(2));
    assert!(!starred_flag(-1));
    assert!(!starred_flag(i32::MAX));
}

#[test]
fn starred_flag_survives_the_table() {
    for flag in [true, false] {
        assert_eq!(starred_flag(starred_cell(flag)), flag);
        let once = !starred_flag(starred_cell(flag));
        let twice = !starred_flag(starred_cell(once));
        assert_eq!(twice, flag);
    }
}

#[test]
fn a_row_becomes_its_book() {
    assert_eq!(
        book_from_row(row("Dune", "Herbert", "Reading", 1)),
        book("Dune", "Herbert", ReadState::Reading, true)
    );
    assert_eq!(
        book_from_row(row("Dune", "Herbert", "Read", 0)),
        book("Dune", "Herbert", ReadState::WishToRead, false)
    );
    assert_eq!(
        book_from_row(row("", "", "Completed", 7)),
        book("", "", ReadState::Completed, false)
    );
}

#[test]
fn rows_are_listed_newest_first() {
    let rows = vec![
        row("first", "a", "Completed", 0),
        row("second", "b", "NotCompleted", 1),
        row("third", "c", "nonsense", 0),
    ];
    assert_eq!(
        books_from_rows(rows),
        vec![
            book("third", "c", ReadState::WishToRead, false),
            book("second", "b", ReadState::NotCompleted, true),
            book("first", "a", ReadState::Completed, false),
        ]
    );
    assert_eq!(books_from_rows(Vec::new()), Vec::new());
}

#[test]
fn a_new_database_gets_its_table() {
    assert_eq!(migration_from(0), Some(Migration::CreateTable));
}

#[test]
fn an_older_database_gets_its_states_renamed() {
    assert_eq!(migration_from(1), Some(Migration::RenameLegacyStates));
}

#[test]
fn a_current_database_needs_no_migration() {
    assert_eq!(CURRENT_DB_VERSION, 2);
    assert_eq!(migration_from(2), None);
    assert_eq!(migration_from(3), None);
    assert_eq!(migration_from(u32::MAX), None);
}

#[test]
fn database_file_has_its_name() {
    assert_eq!(DATABASE_FILE, "books.sqlite");
}

#[test]
fn each_migration_has_its_sql() {
    let create = migration_sql(Migration::CreateTable);
    assert_eq!(create, CREATE_TABLE);
    assert!(create.starts_with("CREATE TABLE books"));
    assert!(create.contains("PRIMARY KEY (book, author)"));
    let rename = migration_sql(Migration::RenameLegacyStates);
    assert_eq!(rename, RENAME_LEGACY_STATES);
    assert!(rename.contains("SET read_state = 'Completed' WHERE read_state = 'Read'"));
    assert!(rename.contains("SET read_state = 'WishToRead' WHERE read_state = 'NotRead'"));
    assert!(rename.contains("SET read_state = 'NotCompleted' WHERE read_state = 'PartialRead'"));
}

#[test]
fn statements_without_parameters() {
    let select = select_books_statement();
    assert_eq!(select.sql, "SELECT * FROM books");
    assert!(select.texts.is_empty());
    assert!(select.integers.is_empty());
    assert_eq!(select.columns, vec!["book", "author", "read_state", "starred"]);
}

#[test]
fn insert_statement_binds_the_book() {
    let dune = book("Dune", "Herbert", ReadState::NotCompleted, true);
    let statement = insert_statement(&dune);
    assert_eq!(
        statement.sql,
        "INSERT INTO books (book, author, read_state, starred) VALUES (@book, @author, @read_state, @starred)"
    );
    assert_eq!(
        statement.texts,
        vec![("@book", "Dune"), ("@author", "Herbert"), ("@read_state", "NotCompleted")]
    );
    assert_eq!(statement.integers, vec![("@starred", 1)]);
    assert!(statement.columns.is_empty());
    let plain = book("Dune", "Herbert", ReadState::WishToRead, false);
    assert_eq!(insert_statement(&plain).integers, vec![("@starred", 0)]);
}

#[test]
fn statements_that_pick_a_book_bind_its_key() {
    let key = vec![("@book", "Dune"), ("@author", "Herbert")];
    let delete = delete_statement("Dune", "Herbert");
    assert_eq!(delete.sql, "DELETE FROM books WHERE book = @book AND author = @author");
    assert_eq!(delete.texts, key);
    assert!(delete.integers.is_empty());
    assert!(delete.columns.is_empty());
    let starred = select_starred_statement("Dune", "Herbert");
    assert_eq!(starred.sql, "SELECT starred FROM books WHERE book = @book AND author = @author");
    assert_eq!(starred.texts, key);
    assert!(starred.integers.is_empty());
    assert_eq!(starred.columns, vec!["starred"]);
    let read_state = select_read_state_statement("Dune", "Herbert");
    assert_eq!(
        read_state.sql,
        "SELECT read_state FROM books WHERE book = @book AND author = @author"
    );
    assert_eq!(read_state.texts, key);
    assert!(read_state.integers.is_empty());
    assert_eq!(read_state.columns, vec!["read_state"]);
}

#[test]
fn update_statements_bind_the_new_value() {
    let starred = update_starred_statement("Dune", "Herbert", true);
    assert_eq!(
        starred.sql,
        "UPDATE books SET starred = @starred WHERE book = @book AND author = @author"
    );
    assert_eq!(starred.texts, vec![("@book", "Dune"), ("@author", "Herbert")]);
    assert_eq!(starred.integers, vec![("@starred", 1)]);
    assert!(starred.columns.is_empty());
    assert_eq!(update_starred_statement("Dune", "Herbert", false).integers, vec![("@starred", 0)]);
    let read_state = update_read_state_statement("Dune", "Herbert", ReadState::Completed);
    assert_eq!(
        read_state.sql,
        "UPDATE books SET read_state = @read_state WHERE book = @book AND author = @author"
    );
    assert_eq!(
        read_state.texts,
        vec![("@book", "Dune"), ("@author", "Herbert"), ("@read_state", "Completed")]
    );
    assert!(read_state.integers.is_empty());
    assert!(read_state.columns.is_empty());
}

#[test]
fn search_statement_binds_the_pattern() {
    let statement = search_statement("%tol%");
    assert_eq!(
        statement.sql,
        "SELECT * FROM books WHERE book LIKE @keyword ESCAPE '\\' OR author LIKE @keyword ESCAPE '\\'"
    );
    assert_eq!(statement.texts, vec![("@keyword", "%tol%")]);
    assert!(statement.integers.is_empty());
    assert_eq!(statement.columns, vec!["book", "author", "read_state", "starred"]);
}

#[test]
fn a_statement_that_changed_no_row_is_done() {
    assert!(matches!(done(Ok(0)), Ok(())));
    assert!(matches!(done(Ok(1)), Ok(())));
    assert!(matches!(
        done(Err(rusqlite::Error::InvalidQuery)),
        Err(StoreError::Sqlite(rusqlite::Error::InvalidQuery))
    ));
}

#[test]
fn listed_decodes_rows_and_passes_failures_on() {
    let answer = Ok(vec![row("a", "b", "Reading", 0), row("c", "d", "Completed", 1)]);
    assert_eq!(
        listed(answer).unwrap(),
        vec![book("c", "d", ReadState::Completed, true), book("a", "b", ReadState::Reading, false)]
    );
    assert!(matches!(
        listed(Err(rusqlite::Error::InvalidQuery)),
        Err(StoreError::Sqlite(rusqlite::Error::InvalidQuery))
    ));
}

#[test]
fn starred_of_a_missing_book_is_not_found() {
    assert!(matches!(starred(Ok(None)), Err(StoreError::NotFound)));
    assert!(matches!(starred(Ok(Some(1))), Ok(true)));
    assert!(matches!(starred(Ok(Some(0))), Ok(false)));
    assert!(matches!(starred(Ok(Some(5))), Ok(false)));
    assert!(matches!(
        starred(Err(rusqlite::Error::InvalidQuery)),
        Err(StoreError::Sqlite(rusqlite::Error::InvalidQuery))
    ));
}

#[test]
fn following_state_of_a_missing_book_is_not_found() {
    assert!(matches!(following(Ok(None)), Err(StoreError::NotFound)));
    assert!(matches!(following(Ok(Some("WishToRead".to_string()))), Ok(ReadState::Reading)));
    assert!(matches!(following(Ok(Some("Reading".to_string()))), Ok(ReadState::NotCompleted)));
    assert!(matches!(following(Ok(Some("NotCompleted".to_string()))), Ok(ReadState::Completed)));
    assert!(matches!(following(Ok(Some("Completed".to_string()))), Ok(ReadState::WishToRead)));
    assert!(matches!(following(Ok(Some("PartialRead".to_string()))), Ok(ReadState::Reading)));
    assert!(matches!(
        following(Err(rusqlite::Error::InvalidQuery)),
        Err(StoreError::Sqlite(rusqlite::Error::InvalidQuery))
    ));
}

#[test]
fn toggled_writes_the_opposite_of_the_flag_read() {
    let on = toggled(Ok(Some(0)), "Dune", "Herbert").unwrap();
    assert_eq!(on.sql, "UPDATE books SET starred = @starred WHERE book = @book AND author = @author");
    assert_eq!(on.texts, vec![("@book", "Dune"), ("@author", "Herbert")]);
    assert_eq!(on.integers, vec![("@starred", 1)]);
    let off = toggled(Ok(Some(1)), "Dune", "Herbert").unwrap();
    assert_eq!(off.texts, vec![("@book", "Dune"), ("@author", "Herbert")]);
    assert_eq!(off.integers, vec![("@starred", 0)]);
    let odd = toggled(Ok(Some(7)), "Dune", "Herbert").unwrap();
    assert_eq!(odd.integers, vec![("@starred", 1)]);
}

#[test]
fn toggled_writes_nothing_for_a_missing_book() {
    assert!(matches!(toggled(Ok(None), "Dune", "Herbert"), Err(StoreError::NotFound)));
    assert!(matches!(
        toggled(Err(rusqlite::Error::InvalidQuery), "Dune", "Herbert"),
        Err(StoreError::Sqlite(rusqlite::Error::InvalidQuery))
    ));
}

#[test]
fn advanced_writes_the_state_that_follows_the_one_read() {
    let cases = [
        ("WishToRead", "Reading"),
        ("Reading", "NotCompleted"),
        ("NotCompleted", "Completed"),
        ("Completed", "WishToRead"),
        ("PartialRead", "Reading"),
        ("", "Reading"),
    ];
    for (read, written) in cases {
        let statement = advanced(Ok(Some(read.to_string())), "Dune", "Herbert").unwrap();
        assert_eq!(
            statement.sql,
            "UPDATE books SET read_state = @read_state WHERE book = @book AND author = @author"
        );
        assert_eq!(
            statement.texts,
            vec![("@book", "Dune"), ("@author", "Herbert"), ("@read_state", written)]
        );
        assert!(statement.integers.is_empty());
    }
}

#[test]
fn advanced_writes_nothing_for_a_missing_book() {
    assert!(matches!(advanced(Ok(None), "Dune", "Herbert"), Err(StoreError::NotFound)));
    assert!(matches!(
        advanced(Err(rusqlite::Error::InvalidQuery), "Dune", "Herbert"),
        Err(StoreError::Sqlite(rusqlite::Error::InvalidQuery))
    ));
}

#[test]
fn an_upgrade_writes_the_current_version_and_the_write_ahead_log() {
    assert_eq!(version_marker(), ("user_version", 2));
    assert_eq!(version_marker().1, CURRENT_DB_VERSION);
    assert_eq!(journal_mode(), ("journal_mode", "WAL"));
    assert_eq!(version_query(), "PRAGMA user_version");
}
