//! A personal book tracker: the record model of a book and its reading
//! state, and the store that keeps the books in an SQLite table.

pub mod book;
pub mod database;
pub mod migration;
pub mod row;
pub mod sqlite;
pub mod statement;
pub mod text;
