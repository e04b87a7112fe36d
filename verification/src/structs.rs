//! What the reader and the library windows are shown of a book.

use crate::collections::{page_map_entries, page_map_get_index, page_map_len, PageMap};
use crate::cover::Cover;
use crate::error::Error;
use crate::model::Book;
use crate::paths::{is_cover_path, AppDirs, Title};
use vstd::prelude::*;

verus! {

/// A page as the reader shows it: its index in reading order and its file name.
#[derive(Clone, Debug)]
pub struct ReaderBookPage {
    pub index: usize,
    pub name: String,
}

impl ReaderBookPage {
    /// The page at `index` named `name`.
    pub fn new(index: usize, name: &str) -> (p: ReaderBookPage)
        ensures
            p.index == index,
            p.name@ == name@,
    {
        ReaderBookPage { index, name: crate::text::owned(name) }
    }
}

/// The index and name of each page.
pub open spec fn page_views(pages: Seq<ReaderBookPage>) -> Seq<(usize, Seq<char>)> {
    pages.map_values(|p: ReaderBookPage| (p.index, p.name@))
}

/// No page has a greater index than the page after it.
pub open spec fn sorted_by_index(pages: Seq<(usize, Seq<char>)>) -> bool {
    forall|i: int, j: int| 0 <= i < j < pages.len() ==> pages[i].0 <= pages[j].0
}

/// The book opened in a reader window.
#[derive(Clone, Debug)]
pub struct ReaderBook {
    /// Its id, when it is in the library.
    pub id: Option<i32>,
    pub path: String,
    pub title: Title,
    /// Its pages, by index.
    pub pages: Vec<ReaderBookPage>,
}

proof fn lemma_insert_sorted_by_index(s: Seq<(usize, Seq<char>)>, j: int, x: (usize, Seq<char>))
    requires
        sorted_by_index(s),
        0 <= j <= s.len(),
        forall|k: int| 0 <= k < j ==> s[k].0 <= x.0,
        forall|k: int| j <= k < s.len() ==> x.0 < s[k].0,
    ensures
        sorted_by_index(s.insert(j, x)),
{
    s.insert_ensures(j, x);
}

/// Each page has a greater index than the pages before it.
pub open spec fn strictly_by_index(pages: Seq<(usize, Seq<char>)>) -> bool {
    forall|i: int, j: int| 0 <= i < j < pages.len() ==> pages[i].0 < pages[j].0
}

proof fn lemma_insert_strictly_by_index(s: Seq<(usize, Seq<char>)>, j: int, x: (usize, Seq<char>))
    requires
        strictly_by_index(s),
        0 <= j <= s.len(),
        forall|k: int| 0 <= k < j ==> s[k].0 < x.0,
        forall|k: int| j <= k < s.len() ==> x.0 < s[k].0,
    ensures
        strictly_by_index(s.insert(j, x)),
{
    s.insert_ensures(j, x);
}

impl ReaderBook {
    /// The reader's view of a book: its id, path and title, and its pages sorted by index.
    pub fn from_active(id: Option<i32>, path: String, title: Title, pages: &PageMap) -> (b: ReaderBook)
        ensures
            b.id == id,
            b.path == path,
            b.title == title,
            page_views(b.pages@).to_multiset() == page_map_entries(*pages).to_multiset(),
            sorted_by_index(page_views(b.pages@)),
            strictly_by_index(page_views(b.pages@)),
    {
        let n = page_map_len(pages);
        let mut sorted: Vec<ReaderBookPage> = Vec::new();
        let mut i: usize = 0;
        proof {
            broadcast use vstd::seq_lib::group_to_multiset_ensures;
            assert(page_views(sorted@) =~= page_map_entries(*pages).take(0));
        }
        while i < n
            invariant
                n == page_map_entries(*pages).len(),
                i <= n,
                page_views(sorted@).to_multiset() == page_map_entries(*pages).take(i as int).to_multiset(),
                sorted_by_index(page_views(sorted@)),
                strictly_by_index(page_views(sorted@)),
            decreases n - i,
        {
            let entry = page_map_get_index(pages, i).unwrap();
            let page = ReaderBookPage::new(entry.0, entry.1.as_str());
            let m = sorted.len();
            let mut j: usize = 0;
            while j < m && sorted[j].index <= page.index
                invariant
                    m == sorted@.len(),
                    j <= m,
                    forall|k: int| 0 <= k < j ==> sorted@[k].index <= page.index,
                decreases m - j,
            {
                j = j + 1;
            }
            let ghost before = page_views(sorted@);
            proof {
                broadcast use vstd::seq_lib::group_to_multiset_ensures;
                let done = page_map_entries(*pages).take(i as int);
                assert forall|k: int| 0 <= k < before.len() implies before[k].0 != page.index by {
                    assert(before.to_multiset().count(before[k]) > 0);
                    assert(done.contains(before[k]));
                    let t = choose|t: int| 0 <= t < done.len() && done[t] == before[k];
                    assert(page_map_entries(*pages)[t] == done[t]);
                }
                assert forall|k: int| j <= k < before.len() implies page.index < before[k].0 by {
                    assert(before[j as int].0 <= before[k].0);
                }
                lemma_insert_sorted_by_index(before, j as int, (page.index, page.name@));
                lemma_insert_strictly_by_index(before, j as int, (page.index, page.name@));
            }
            sorted.insert(j, page);
            proof {
                broadcast use vstd::seq_lib::group_to_multiset_ensures;
                assert(page_views(sorted@) =~= before.insert(j as int, (entry.0, entry.1@)));
                vstd::seq_lib::to_multiset_insert(before, j as int, (entry.0, entry.1@));
                let t = page_map_entries(*pages).take(i as int + 1);
                assert(t =~= page_map_entries(*pages).take(i as int).push((entry.0, entry.1@)));
            }
            i = i + 1;
        }
        assert(page_map_entries(*pages).take(n as int) =~= page_map_entries(*pages));
        ReaderBook { id, path, title, pages: sorted }
    }
}

/// A book as the library window shows it.
#[derive(Clone, Debug)]
pub struct LibraryBook {
    pub id: i32,
    pub path: String,
    pub title: Title,
    pub rating: u8,
    /// The extracted cover, if it has been extracted.
    pub cover: Option<String>,
}

/// `b` is how the library shows `model`: its id, path, title and rating, and the path of its
/// cover in the cache directory `cache`, when the cover was extracted.
pub open spec fn shown_as(model: Book, cache: Seq<char>, cover_file_exists: bool, b: LibraryBook) -> bool {
    &&& b.id == model.id
    &&& b.path@ == model.path@
    &&& b.title.0@ == model.title@
    &&& b.rating == model.rating
    &&& (b.cover is Some <==> cover_file_exists)
    &&& b.cover is Some ==> is_cover_path(cache, model.id as int, b.cover->0@)
}

impl LibraryBook {
    /// The library's view of a book: its id, path, title and rating, and the path of its
    /// cover when `cover_file_exists` reports that the cover was extracted. A rating that
    /// does not fit a `u8` gives `IntegerOutOfRange`.
    pub fn from_model(dirs: &AppDirs, model: &Book, cover_file_exists: bool) -> (r: Result<LibraryBook, Error>)
        ensures
            (0 <= model.rating <= 255) <==> r is Ok,
            r is Err ==> r == Err::<LibraryBook, Error>(Error::IntegerOutOfRange),
            r is Ok ==> shown_as(*model, dirs.app_cache_dir@, cover_file_exists, r->Ok_0),
    {
        if model.rating < 0 || model.rating > 255 {
            return Err(Error::IntegerOutOfRange);
        }
        let cover = Cover::from_book_id(dirs, model.id, cover_file_exists).into_path();
        Ok(LibraryBook {
            id: model.id,
            path: model.path.clone(),
            title: Title::new(model.title.as_str()),
            rating: model.rating as u8,
            cover,
        })
    }
}

} // verus!
