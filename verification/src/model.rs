//! The records of the library's database: books, collections and folders.

use crate::error::Error;
use crate::metadata::Metadata;
use crate::paths::{file_name_of, has_plain_file_name, occurs_in, stem_of, Title};
use crate::text::owned;
use vstd::prelude::*;

verus! {

/// The highest rating a book can have.
pub const MAX_RATING: u8 = 5;

/// A book of the library.
#[derive(Clone, Debug)]
pub struct Book {
    pub id: i32,
    pub path: String,
    pub title: String,
    pub cover: String,
    pub rating: i32,
    pub read: bool,
}

/// A book about to be saved to the library.
#[derive(Clone, Debug)]
pub struct NewBook {
    pub path: String,
    pub title: String,
    pub cover: String,
    pub rating: i32,
}

/// A collection of books.
#[derive(Clone, Debug)]
pub struct Collection {
    pub id: i32,
    pub name: String,
}

/// A folder of the library, whose books are added to it.
#[derive(Clone, Debug)]
pub struct Folder {
    pub id: i32,
    pub path: String,
}

/// A folder about to be saved to the library.
#[derive(Clone, Debug)]
pub struct NewFolder {
    pub path: String,
}

impl NewFolder {
    /// The folder at `path`. A path held as a string is always valid text, so this never fails.
    pub fn try_from_path(path: String) -> (r: Result<NewFolder, Error>)
        ensures
            r is Ok && r->Ok_0.path == path,
    {
        Ok(NewFolder { path })
    }
}

/// A book saved to the library and added again from the metadata written for it comes back
/// with the same title, cover and rating: the metadata taken from a book, given to any builder
/// of the book file, builds a new book with the book's title, cover and rating, whenever the
/// rating is one the library allows.
pub proof fn law_metadata_restores_book(
    book: Book,
    metadata: Metadata,
    builder: BookBuilder,
    first_page: Option<String>,
    rebuilt: NewBook,
)
    requires
        0 <= book.rating <= MAX_RATING,
        crate::metadata::metadata_of_book(book, metadata),
        built_from(with_metadata(builder, metadata), first_page, rebuilt),
    ensures
        rebuilt.title@ == book.title@,
        rebuilt.cover@ == book.cover@,
        rebuilt.rating == book.rating,
{
}

/// The value a rating is stored with: the rating itself, or `InvalidRating` when it is
/// above the highest one allowed.
pub fn stored_rating(rating: u8) -> (r: Result<i32, Error>)
    ensures
        rating <= MAX_RATING ==> r == Ok::<i32, Error>(rating as i32),
        rating > MAX_RATING ==> r == Err::<i32, Error>(Error::InvalidRating),
{
    if rating > MAX_RATING {
        Err(Error::InvalidRating)
    } else {
        Ok(rating as i32)
    }
}

impl Book {
    /// A builder of the book at `path`.
    pub fn builder(path: &str) -> (b: BookBuilder)
        ensures
            b.path@ == path@,
            b.title is None,
            b.rating is None,
            b.cover is None,
    {
        BookBuilder::new(path)
    }
}

/// The builder once it has taken what the metadata holds: the title and cover when present,
/// the rating when present and not above the highest allowed.
pub open spec fn with_metadata(b: BookBuilder, m: Metadata) -> BookBuilder {
    BookBuilder {
        path: b.path,
        title: if m.title is Some { m.title } else { b.title },
        rating: if m.rating is Some && m.rating->0 <= MAX_RATING { m.rating } else { b.rating },
        cover: if m.cover is Some { m.cover } else { b.cover },
    }
}

/// `nb` is the book built from `b`, with `first_page` as the name of its first page: the path;
/// the title set, when one is; the cover set, or else the first page; the rating set, or else 0.
pub open spec fn built_from(b: BookBuilder, first_page: Option<String>, nb: NewBook) -> bool {
    &&& nb.path@ == b.path@
    &&& b.title is Some ==> nb.title@ == (b.title->0).0@
    &&& nb.cover@ == (if b.cover is Some { b.cover->0@ } else { first_page->0@ })
    &&& nb.rating == (if b.rating is Some { b.rating->0 as i32 } else { 0 })
}

/// Collects what a new book is saved with.
#[derive(Debug)]
pub struct BookBuilder {
    pub path: String,
    pub title: Option<Title>,
    pub rating: Option<u8>,
    pub cover: Option<String>,
}

impl BookBuilder {
    /// A builder of the book at `path`, with nothing else set.
    pub fn new(path: &str) -> (b: BookBuilder)
        ensures
            b.path@ == path@,
            b.title is None,
            b.rating is None,
            b.cover is None,
    {
        BookBuilder { path: owned(path), title: None, rating: None, cover: None }
    }

    /// Sets the cover page.
    pub fn cover(self, cover: String) -> (b: BookBuilder)
        ensures
            b.cover == Some(cover),
            b.path == self.path,
            b.title == self.title,
            b.rating == self.rating,
    {
        BookBuilder { cover: Some(cover), ..self }
    }

    /// Sets the title.
    pub fn title(self, title: Title) -> (b: BookBuilder)
        ensures
            b.title == Some(title),
            b.path == self.path,
            b.cover == self.cover,
            b.rating == self.rating,
    {
        BookBuilder { title: Some(title), ..self }
    }

    /// Takes what the book's metadata holds: its title and cover when present, and its rating
    /// when present and not above the highest allowed. Anything else stays as it was.
    pub fn metadata(self, metadata: Metadata) -> (b: BookBuilder)
        ensures
            b == with_metadata(self, metadata),
    {
        let mut builder = self;
        let mut metadata = metadata;
        if metadata.title.is_some() {
            builder.title = metadata.title.take();
        }
        match metadata.rating {
            Some(rating) => {
                if rating <= MAX_RATING {
                    builder.rating = metadata.rating.take();
                }
            },
            None => {},
        }
        if metadata.cover.is_some() {
            builder.cover = metadata.cover.take();
        }
        builder
    }

    /// Whether building needs the name of the book's first page: it does when no cover was set.
    pub fn needs_first_page(&self) -> (r: bool)
        ensures
            r == self.cover is None,
    {
        self.cover.is_none()
    }

    /// The book to save: its path; its title, or else the stem of its file name; its cover, or
    /// else `first_page`, the name of its first page; its rating, or else 0. Fails with
    /// `InvalidBookTitle` when no title is set and the path has no file stem, and with
    /// `EmptyBook` when no cover is set and no first page is given.
    pub fn build(self, first_page: Option<String>) -> (r: Result<NewBook, Error>)
        ensures
            self.title is None && self.path@.len() == 0 ==> r == Err::<NewBook, Error>(Error::InvalidBookTitle),
            (self.title is Some || self.path@.len() > 0) && self.cover is None && first_page is None
                ==> r is Err,
            self.title is Some && self.cover is None && first_page is None
                ==> r == Err::<NewBook, Error>(Error::EmptyBook),
            self.title is Some && (self.cover is Some || first_page is Some) ==> r is Ok,
            r is Err ==> r == Err::<NewBook, Error>(Error::InvalidBookTitle)
                || r == Err::<NewBook, Error>(Error::EmptyBook),
            r is Ok ==> built_from(self, first_page, r->Ok_0),
            r is Ok && self.title is None ==> occurs_in(r->Ok_0.title@, self.path@),
            r is Ok && self.title is None && has_plain_file_name(self.path@)
                ==> r->Ok_0.title@ == stem_of(file_name_of(self.path@)),
            has_plain_file_name(self.path@) && (self.cover is Some || first_page is Some) ==> r is Ok,
            has_plain_file_name(self.path@) && self.cover is None && first_page is None
                ==> r == Err::<NewBook, Error>(Error::EmptyBook),
    {
        let path = self.path.clone();
        let title = match self.title {
            Some(title) => title.to_string(),
            None => {
                match Title::try_from_path(self.path.as_str()) {
                    Ok(title) => title.to_string(),
                    Err(err) => {
                        return Err(err);
                    },
                }
            },
        };
        let cover = match self.cover {
            Some(cover) => cover,
            None => match first_page {
                Some(name) => name,
                None => {
                    return Err(Error::EmptyBook);
                },
            },
        };
        let rating: i32 = match self.rating {
            Some(rating) => rating as i32,
            None => 0,
        };
        Ok(NewBook { path, title, cover, rating })
    }
}

} // verus!
