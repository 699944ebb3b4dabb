//! The record model: a book, its reading state, and the text form in which
//! the reading state is kept in the store.

use crate::text::same_text;
use crate::text::trim;
use crate::text::trimmed;
use vstd::prelude::*;

verus! {

/// How far the reading of a book has come.
#[derive(Clone, Copy, Debug, PartialEq, Eq, Structural)]
pub enum ReadState {
    Completed,
    WishToRead,
    Reading,
    NotCompleted,
}

impl ReadState {
    /// The canonical text of a state, as it is kept in the store.
    pub open spec fn text(self) -> Seq<char> {
        match self {
            ReadState::Completed => "Completed"@,
            ReadState::WishToRead => "WishToRead"@,
            ReadState::Reading => "Reading"@,
            ReadState::NotCompleted => "NotCompleted"@,
        }
    }

    /// The state that a stored text stands for. Any text but the canonical
    /// ones of the other three states stands for `WishToRead`.
    pub open spec fn parse(text: Seq<char>) -> ReadState {
        if text == "Completed"@ {
            ReadState::Completed
        } else if text == "Reading"@ {
            ReadState::Reading
        } else if text == "NotCompleted"@ {
            ReadState::NotCompleted
        } else {
            ReadState::WishToRead
        }
    }

    /// The state that follows `self` in the cycle
    /// wish to read, reading, not completed, completed, wish to read.
    pub open spec fn successor(self) -> ReadState {
        match self {
            ReadState::WishToRead => ReadState::Reading,
            ReadState::Reading => ReadState::NotCompleted,
            ReadState::NotCompleted => ReadState::Completed,
            ReadState::Completed => ReadState::WishToRead,
        }
    }

    /// Reads a state from its stored text. Never fails: an unknown text
    /// reads as `WishToRead`.
    pub fn from(state: &str) -> (parsed: ReadState)
        ensures
            parsed == ReadState::parse(state@),
    {
        if same_text(state, "Completed") {
            ReadState::Completed
        } else if same_text(state, "Reading") {
            ReadState::Reading
        } else if same_text(state, "NotCompleted") {
            ReadState::NotCompleted
        } else {
            ReadState::WishToRead
        }
    }

    /// Moves the state one step along the cycle.
    pub fn next(&mut self)
        ensures
            *final(self) == old(self).successor(),
    {
        match self {
            ReadState::WishToRead => {
                *self = ReadState::Reading;
            },
            ReadState::Reading => {
                *self = ReadState::NotCompleted;
            },
            ReadState::NotCompleted => {
                *self = ReadState::Completed;
            },
            ReadState::Completed => {
                *self = ReadState::WishToRead;
            },
        }
    }

    /// The canonical text of the state.
    pub fn as_str(&self) -> (text: &'static str)
        ensures
            text@ == self.text(),
    {
        match self {
            ReadState::WishToRead => "WishToRead",
            ReadState::Reading => "Reading",
            ReadState::NotCompleted => "NotCompleted",
            ReadState::Completed => "Completed",
        }
    }

    /// The canonical text of the state, as a string of its own.
    pub fn to_string(&self) -> (text: String)
        ensures
            text@ == self.text(),
    {
        self.as_str().to_owned()
    }
}

/// What a book is, with its texts as sequences of characters.
pub struct BookView {
    pub name: Seq<char>,
    pub author: Seq<char>,
    pub read_state: ReadState,
    pub starred: bool,
}

/// One book of the collection. The pair of `name` and `author` identifies it.
#[derive(Clone, Debug, PartialEq, Eq)]
pub struct Book {
    pub name: String,
    pub author: String,
    pub read_state: ReadState,
    pub starred: bool,
}

impl View for Book {
    type V = BookView;

    open spec fn view(&self) -> BookView {
        BookView {
            name: self.name@,
            author: self.author@,
            read_state: self.read_state,
            starred: self.starred,
        }
    }
}

impl Book {
    /// A book of the given fields. Nothing is checked: an empty name or
    /// author is taken as it is.
    pub fn from(name: String, author: String, read_state: ReadState, starred: bool) -> (book: Self)
        ensures
            book.name == name,
            book.author == author,
            book.read_state == read_state,
            book.starred == starred,
    {
        Self { name, author, read_state, starred }
    }

    /// A book as it enters the collection: the name and the author without
    /// the white space around them, not yet read and not starred.
    pub fn unread(name: &str, author: &str) -> (book: Self)
        ensures
            book@ == (BookView {
                name: trimmed(name@),
                author: trimmed(author@),
                read_state: ReadState::WishToRead,
                starred: false,
            }),
    {
        Book::from(trim(name).to_owned(), trim(author).to_owned(), ReadState::WishToRead, false)
    }
}

/// The canonical texts of the four states differ from one another.
pub proof fn lemma_texts_differ(a: ReadState, b: ReadState)
    ensures
        a.text() == b.text() <==> a == b,
{
    reveal_strlit("Completed");
    reveal_strlit("WishToRead");
    reveal_strlit("Reading");
    reveal_strlit("NotCompleted");
    assert("Completed"@.len() == 9);
    assert("WishToRead"@.len() == 10);
    assert("Reading"@.len() == 7);
    assert("NotCompleted"@.len() == 12);
}

/// Writing a state as text and reading the text again gives the state back.
pub proof fn lemma_parse_of_text(state: ReadState)
    ensures
        ReadState::parse(state.text()) == state,
{
    lemma_texts_differ(state, ReadState::Completed);
    lemma_texts_differ(state, ReadState::Reading);
    lemma_texts_differ(state, ReadState::NotCompleted);
}

/// Reading a text and writing the state again is stable: a canonical text
/// comes back as it was, and every other text comes back as the text of
/// `WishToRead`, after which another round changes nothing.
pub proof fn lemma_text_of_parse(text: Seq<char>)
    ensures
        (exists|state: ReadState| text == state.text()) ==> ReadState::parse(text).text() == text,
        !(exists|state: ReadState| text == state.text()) ==> ReadState::parse(text)
            == ReadState::WishToRead,
        ReadState::parse(ReadState::parse(text).text()) == ReadState::parse(text),
{
    lemma_parse_of_text(ReadState::parse(text));
    if exists|state: ReadState| text == state.text() {
        let state = choose|state: ReadState| text == state.text();
        lemma_parse_of_text(state);
    } else {
        assert(text != ReadState::Completed.text());
        assert(text != ReadState::Reading.text());
        assert(text != ReadState::NotCompleted.text());
    }
}

/// Four steps along the cycle lead back to the start, and no fewer do: the
/// cycle passes through all four states.
pub proof fn lemma_cycle_of_four(state: ReadState)
    ensures
        state.successor().successor().successor().successor() == state,
        state.successor() != state,
        state.successor().successor() != state,
        state.successor().successor().successor() != state,
{
}

} // verus!
