//! A book opened by the reader, and the decisions taken when its cover is looked up or one of
//! its pages is deleted.

use crate::collections::{page_map_entries, page_map_len, PageMap};
use crate::error::Error;
use crate::model::Book;
use crate::natural::{compare_ignore_case, natural_order, Order};
use crate::pages::{first_page_name, has_page, names_of};
use crate::paths::{file_name_of, has_plain_file_name, occurs_in, stem_of, Title};
use crate::text::owned;
use vstd::prelude::*;

verus! {

/// A book opened by the reader. Its id in the library and its pages are looked up once, when
/// first needed, and kept; the pages are forgotten when one of them is deleted.
pub struct ActiveBook {
    pub path: String,
    pub title: Title,
    /// The id of the book in the library, once looked up.
    pub id: Option<i32>,
    /// The pages of the book, once read.
    pub pages: Option<PageMap>,
}

/// What follows the deletion of a page from a book.
#[derive(Clone, Debug, PartialEq, Eq)]
pub enum PageDeletedFollowUp {
    /// Nothing more: the book is not in the library, or neither condition below holds.
    Nothing,
    /// The book is in the library with this id and has no page left: remove it from the library.
    RemoveFromLibrary(i32),
    /// The deleted page was the cover of the book with this id: the given page, its first
    /// remaining one, becomes the cover.
    SetCover(i32, String),
}

/// What the reader does once the book file was asked to delete a page.
#[derive(Clone, Debug, PartialEq, Eq)]
pub enum AfterDeleteRequest {
    /// The book file could not delete the page: stop with its error; nothing else changes.
    Stop,
    /// Read the pages left, then call `after_pages_read`.
    ReadPages,
    /// Done, with this follow-up.
    Finish(PageDeletedFollowUp),
}

/// `r` is what follows the deletion of a page, as `after_page_deleted` decides it for a book
/// whose id in the library is `id`, given whether the page was the cover and the pages left.
pub open spec fn is_follow_up_of(
    id: Option<i32>,
    was_cover: bool,
    pages_after: Seq<(usize, Seq<char>)>,
    r: PageDeletedFollowUp,
) -> bool {
    match id {
        None => r == PageDeletedFollowUp::Nothing,
        Some(id) => if pages_after.len() == 0 {
            r == PageDeletedFollowUp::RemoveFromLibrary(id)
        } else if was_cover {
            r is SetCover && r->SetCover_0 == id && r->SetCover_1@ == pages_after[0].1
        } else {
            r == PageDeletedFollowUp::Nothing
        },
    }
}

impl ActiveBook {
    /// The id of the book in the library, once it is known.
    pub open spec fn known_id(&self) -> Option<i32> {
        self.id
    }

    /// The pages of the book, once they are known.
    pub open spec fn known_pages(&self) -> Option<PageMap> {
        self.pages
    }

    /// The book at `path`, titled by the stem of its file name; `InvalidBookTitle` when the path
    /// has none. Neither its id nor its pages are known yet.
    pub fn new(path: &str) -> (r: Result<ActiveBook, Error>)
        ensures
            path@.len() == 0 ==> r is Err,
            has_plain_file_name(path@) ==> r is Ok && r->Ok_0.title.0@ == stem_of(file_name_of(path@)),
            r is Err ==> r == Err::<ActiveBook, Error>(Error::InvalidBookTitle),
            r is Ok ==> {
                let b = r->Ok_0;
                &&& b.path@ == path@
                &&& occurs_in(b.title.0@, path@)
                &&& b.known_id() is None
                &&& b.known_pages() is None
            },
    {
        match Title::try_from_path(path) {
            Ok(title) => Ok(ActiveBook { path: owned(path), title, id: None, pages: None }),
            Err(err) => Err(err),
        }
    }

    /// The book of the library described by `book`, with its id already known.
    pub fn from_model(book: &Book) -> (r: Result<ActiveBook, Error>)
        ensures
            book.path@.len() == 0 ==> r is Err,
            has_plain_file_name(book.path@) ==> r is Ok && r->Ok_0.title.0@ == stem_of(file_name_of(book.path@)),
            r is Err ==> r == Err::<ActiveBook, Error>(Error::InvalidBookTitle),
            r is Ok ==> {
                let b = r->Ok_0;
                &&& b.path@ == book.path@
                &&& b.known_id() == Some(book.id)
                &&& b.known_pages() is None
            },
    {
        match ActiveBook::new(book.path.as_str()) {
            Ok(mut active) => {
                active.id = Some(book.id);
                Ok(active)
            },
            Err(err) => Err(err),
        }
    }

    /// The id of the book in the library, if known.
    pub fn id(&self) -> (r: Option<i32>)
        ensures
            r == self.known_id(),
    {
        self.id
    }

    /// Keeps the id looked up in the library. An id already known is kept as it is.
    pub fn remember_id(&mut self, id: i32)
        ensures
            final(self).known_id() == (if old(self).known_id() is Some { old(self).known_id() } else { Some(id) }),
            final(self).known_pages() == old(self).known_pages(),
            final(self).path == old(self).path,
            final(self).title == old(self).title,
    {
        if self.id.is_none() {
            self.id = Some(id);
        }
    }

    /// The pages of the book, if known.
    pub fn pages(&self) -> (r: Option<&PageMap>)
        ensures
            r is Some <==> self.known_pages() is Some,
            r is Some ==> *r->0 == self.known_pages()->0,
    {
        match &self.pages {
            Some(pages) => Some(pages),
            None => None,
        }
    }

    /// Keeps the pages read from the book file. Pages already known are kept as they are.
    pub fn remember_pages(&mut self, pages: PageMap)
        ensures
            final(self).known_pages() == (if old(self).known_pages() is Some { old(self).known_pages() } else { Some(pages) }),
            final(self).known_id() == old(self).known_id(),
            final(self).path == old(self).path,
            final(self).title == old(self).title,
    {
        if self.pages.is_none() {
            self.pages = Some(pages);
        }
    }

    /// The second step of deleting a page, after the cover was looked up (`is_deleted_page_cover`)
    /// and the book file was asked to delete the page, which `deleted` reports. When it could
    /// not, the reader stops and the book is left as it was. Otherwise the pages are forgotten,
    /// as one is gone; a book outside the library needs nothing more, and a book of the library
    /// reads its pages left before the follow-up is decided.
    pub fn after_delete_request(&mut self, deleted: bool) -> (r: AfterDeleteRequest)
        ensures
            !deleted ==> r == AfterDeleteRequest::Stop && final(self).known_pages() == old(self).known_pages(),
            deleted ==> final(self).known_pages() is None,
            deleted && old(self).known_id() is None ==> r == AfterDeleteRequest::Finish(PageDeletedFollowUp::Nothing),
            deleted && old(self).known_id() is Some ==> r == AfterDeleteRequest::ReadPages,
            final(self).known_id() == old(self).known_id(),
            final(self).path == old(self).path,
            final(self).title == old(self).title,
    {
        if !deleted {
            return AfterDeleteRequest::Stop;
        }
        self.forget_pages();
        match self.id {
            None => AfterDeleteRequest::Finish(PageDeletedFollowUp::Nothing),
            Some(_) => AfterDeleteRequest::ReadPages,
        }
    }

    /// The last step of deleting a page from a book of the library: the pages left, read from
    /// the book file, are kept, and the follow-up is decided from them and from whether the
    /// deleted page was the cover.
    pub fn after_pages_read(&mut self, was_cover: bool, pages: PageMap) -> (r: PageDeletedFollowUp)
        requires
            old(self).known_pages() is None,
        ensures
            final(self).known_pages() == Some(pages),
            final(self).known_id() == old(self).known_id(),
            final(self).path == old(self).path,
            final(self).title == old(self).title,
            is_follow_up_of(old(self).known_id(), was_cover, page_map_entries(pages), r),
    {
        let r = self.after_page_deleted(was_cover, &pages);
        self.remember_pages(pages);
        r
    }

    /// Forgets the pages, which must be read again: one of them was deleted.
    pub fn forget_pages(&mut self)
        ensures
            final(self).known_pages() is None,
            final(self).known_id() == old(self).known_id(),
            final(self).path == old(self).path,
            final(self).title == old(self).title,
    {
        self.pages = None;
    }

    /// Two active books are the same book when their paths are.
    pub fn same_book(&self, other: &ActiveBook) -> (r: bool)
        ensures
            r == (self.path@ == other.path@),
    {
        self.path == other.path
    }

    /// Books are ordered by title, in natural, case-insensitive order.
    pub fn compare(&self, other: &ActiveBook) -> (r: Order)
        ensures
            r == natural_order(self.title.0@, other.title.0@),
    {
        compare_ignore_case(self.title.as_str(), other.title.as_str())
    }

    /// The cover of a book of the library: the page saved as its cover when the book still has
    /// it, as it may have been deleted from the file; otherwise its first page, or `EmptyBook`.
    pub fn cover_name(saved_cover: &str, pages: &PageMap) -> (r: Result<String, Error>)
        ensures
            names_of(page_map_entries(*pages)).contains(saved_cover@) ==> r is Ok && r->Ok_0@ == saved_cover@,
            !names_of(page_map_entries(*pages)).contains(saved_cover@) && page_map_entries(*pages).len() > 0
                ==> r is Ok && r->Ok_0@ == page_map_entries(*pages)[0].1,
            page_map_entries(*pages).len() == 0 ==> r == Err::<String, Error>(Error::EmptyBook),
    {
        if has_page(pages, saved_cover) {
            Ok(owned(saved_cover))
        } else {
            first_page_name(pages)
        }
    }

    /// Whether the page named `name`, about to be deleted, is the cover, given what looking the
    /// cover up gave. When the lookup failed, which it always does for a book outside the library,
    /// the page counts as the cover exactly when the book's id is known.
    pub fn is_deleted_page_cover(&self, cover_name: &Result<String, Error>, name: &str) -> (r: bool)
        ensures
            cover_name is Ok ==> r == (cover_name->Ok_0@ == name@),
            cover_name is Err ==> r == self.known_id() is Some,
    {
        match cover_name {
            Ok(cover) => crate::text::same_text(cover.as_str(), name),
            Err(_) => self.id.is_some(),
        }
    }

    /// What follows the deletion of a page, given whether it was the cover and the pages left.
    /// A book outside the library needs nothing more. A book of the library with no page left
    /// leaves the library; one whose cover was deleted gets its first remaining page as cover.
    pub fn after_page_deleted(&self, was_cover: bool, pages_after: &PageMap) -> (r: PageDeletedFollowUp)
        ensures
            self.known_id() is None ==> r == PageDeletedFollowUp::Nothing,
            self.known_id() is Some && page_map_entries(*pages_after).len() == 0
                ==> r == PageDeletedFollowUp::RemoveFromLibrary(self.known_id()->0),
            self.known_id() is Some && page_map_entries(*pages_after).len() > 0 && was_cover
                ==> r is SetCover && r->SetCover_0 == self.known_id()->0
                    && r->SetCover_1@ == page_map_entries(*pages_after)[0].1,
            self.known_id() is Some && page_map_entries(*pages_after).len() > 0 && !was_cover
                ==> r == PageDeletedFollowUp::Nothing,
    {
        match self.id {
            None => PageDeletedFollowUp::Nothing,
            Some(id) => {
                if page_map_len(pages_after) == 0 {
                    PageDeletedFollowUp::RemoveFromLibrary(id)
                } else if was_cover {
                    match first_page_name(pages_after) {
                        Ok(first) => PageDeletedFollowUp::SetCover(id, first),
                        Err(_) => PageDeletedFollowUp::Nothing,
                    }
                } else {
                    PageDeletedFollowUp::Nothing
                }
            },
        }
    }
}

} // verus!
