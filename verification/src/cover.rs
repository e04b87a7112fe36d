//! Whether a book's cover image has been extracted to the cache.

use crate::paths::{is_cover_path, AppDirs, PathResolverExt};
use crate::text::owned;
use vstd::prelude::*;

verus! {

/// The cover image of a book of the library.
#[derive(Clone, Debug)]
pub enum Cover {
    /// Extracted to the file at this path.
    Extracted(String),
    /// Not extracted yet.
    NotExtracted,
}

impl Cover {
    /// The cover of the book with id `id`: extracted, at `dirs.cover(id)`, when
    /// `cover_file_exists` reports that this file exists; otherwise not extracted.
    pub fn from_book_id(dirs: &AppDirs, id: i32, cover_file_exists: bool) -> (c: Cover)
        ensures
            cover_file_exists <==> c is Extracted,
            c is Extracted ==> is_cover_path(dirs.app_cache_dir@, id as int, c->Extracted_0@),
    {
        let path = dirs.cover(id);
        if cover_file_exists {
            Cover::Extracted(path)
        } else {
            Cover::NotExtracted
        }
    }

    /// The path of the extracted cover, if there is one.
    pub fn into_path(self) -> (p: Option<String>)
        ensures
            self is Extracted <==> p is Some,
            p is Some ==> p->0 == self->Extracted_0,
    {
        match self {
            Cover::Extracted(path) => Some(path),
            Cover::NotExtracted => None,
        }
    }

    /// A cover extracted to `path`.
    pub fn from_path(path: &str) -> (c: Cover)
        ensures
            c is Extracted && c->Extracted_0@ == path@,
    {
        Cover::Extracted(owned(path))
    }
}

} // verus!
