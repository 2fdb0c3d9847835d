//! The bodies of the answers about authors and books.

use crate::error::STATUS_NOT_FOUND;
use vstd::prelude::*;

verus! {

/// An author as it is shown to a caller.
#[derive(Clone, Debug)]
pub struct ResAuthor {
    pub id: i32,
    pub firstname: String,
    pub lastname: String,
    pub bio: String,
}

/// A list of authors, with their number.
#[derive(Clone, Debug)]
pub struct ResAuthorList {
    pub total: usize,
    pub authors: Vec<ResAuthor>,
}

/// The body of a request that creates or changes an author.
#[derive(Clone, Debug)]
pub struct ReqAuthor {
    pub firstname: String,
    pub lastname: String,
    pub bio: String,
}

/// A book as it is shown to a caller.
#[derive(Clone, Debug)]
pub struct ResBook {
    pub id: i32,
    pub author_id: i32,
    pub title: String,
    pub year: String,
    pub cover: String,
}

/// A list of books, with their number.
#[derive(Clone, Debug)]
pub struct ResBookList {
    pub total: usize,
    pub books: Vec<ResBook>,
}

/// The body of a request that creates or changes a book.
#[derive(Clone, Debug)]
pub struct ReqBook {
    pub author_id: i32,
    pub title: String,
    pub year: String,
    pub cover: String,
}

/// A resource that a request named by an identity no record has.
#[derive(Clone, Copy, Debug, PartialEq, Eq, Structural)]
pub enum Missing {
    /// An author.
    Author,
    /// A book that was to be shown.
    BookToShow,
    /// A book that was to be changed or deleted.
    BookToChange,
}

impl ResAuthorList {
    /// The list of `authors` in the order given, with their number.
    pub fn new(authors: Vec<ResAuthor>) -> (list: ResAuthorList)
        ensures
            list.total == authors@.len(),
            list.authors == authors,
    {
        ResAuthorList { total: authors.len(), authors }
    }
}

impl ResBookList {
    /// The list of `books` in the order given, with their number.
    pub fn new(books: Vec<ResBook>) -> (list: ResBookList)
        ensures
            list.total == books@.len(),
            list.books == books,
    {
        ResBookList { total: books.len(), books }
    }
}

impl Missing {
    /// The text that a caller is told.
    pub open spec fn spec_message(self) -> Seq<char> {
        match self {
            Missing::Author => "No author found with the specified ID."@,
            Missing::BookToShow => "Cannot find a book with the specified ID."@,
            Missing::BookToChange => "No book with that specified ID."@,
        }
    }

    /// The HTTP status for a missing resource.
    pub fn status(&self) -> (code: u16)
        ensures
            code == STATUS_NOT_FOUND,
    {
        STATUS_NOT_FOUND
    }

    /// The message for a missing resource.
    pub fn message(&self) -> (text: String)
        ensures
            text@ == self.spec_message(),
    {
        match self {
            Missing::Author => "No author found with the specified ID.".to_owned(),
            Missing::BookToShow => "Cannot find a book with the specified ID.".to_owned(),
            Missing::BookToChange => "No book with that specified ID.".to_owned(),
        }
    }
}

} // verus!
