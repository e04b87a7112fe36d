//! The pages of a book: which entries of the archive they are, and in which order they are read.

use crate::collections::{
    key_position, page_map_entries, page_map_get_index, page_map_insert, page_map_len, page_map_new,
    PageMap,
};
use crate::error::Error;
use crate::glob::{is_book_page, is_book_page_name};
use crate::natural::{naturally_sorted, sort_naturally, views};
use crate::text::owned;
use vstd::prelude::*;

verus! {

/// The names that are page images, in the order they come.
pub open spec fn page_names_among(names: Seq<Seq<char>>) -> Seq<Seq<char>>
    decreases names.len(),
{
    if names.len() == 0 {
        Seq::empty()
    } else if is_book_page(names.last()) {
        page_names_among(names.drop_last()).push(names.last())
    } else {
        page_names_among(names.drop_last())
    }
}

/// The page names held by a page map, in its order.
pub open spec fn names_of(entries: Seq<(usize, Seq<char>)>) -> Seq<Seq<char>> {
    entries.map_values(|e: (usize, Seq<char>)| e.1)
}

/// Every entry's key is its position: the pages are numbered `0, 1, 2, ...` in order.
pub open spec fn numbered_in_order(entries: Seq<(usize, Seq<char>)>) -> bool {
    forall|i: int| 0 <= i < entries.len() ==> (#[trigger] entries[i]).0 == i
}

/// What the pages of a book whose archive holds `names` are: every page image exactly once,
/// numbered from 0 in natural, case-insensitive order of their names.
pub open spec fn is_page_map_of(entries: Seq<(usize, Seq<char>)>, names: Seq<Seq<char>>) -> bool {
    &&& numbered_in_order(entries)
    &&& names_of(entries).to_multiset() == page_names_among(names).to_multiset()
    &&& naturally_sorted(names_of(entries))
}

proof fn lemma_key_absent(entries: Seq<(usize, Seq<char>)>, k: usize)
    requires
        forall|i: int| 0 <= i < entries.len() ==> (#[trigger] entries[i]).0 != k,
    ensures
        key_position(entries, k) == -1,
    decreases entries.len(),
{
    if entries.len() > 0 {
        lemma_key_absent(entries.drop_last(), k);
    }
}

/// The names of the page images among the archive's entries, in the order they come.
fn select_page_names(names: &Vec<String>) -> (kept: Vec<String>)
    ensures
        views(kept@) == page_names_among(views(names@)),
{
    let mut kept: Vec<String> = Vec::new();
    let n = names.len();
    let mut i: usize = 0;
    while i < n
        invariant
            n == names@.len(),
            i <= n,
            views(kept@) == page_names_among(views(names@).take(i as int)),
        decreases n - i,
    {
        let ghost before = views(kept@);
        if is_book_page_name(names[i].as_str()) {
            kept.push(names[i].clone());
        }
        proof {
            let s = views(names@).take(i as int + 1);
            assert(s.drop_last() =~= views(names@).take(i as int));
            assert(s.last() == names@[i as int]@);
            assert(views(kept@) =~= page_names_among(s));
        }
        i = i + 1;
    }
    assert(views(names@).take(n as int) =~= views(names@));
    kept
}

/// The pages of a book whose archive holds entries named `names`: the page images,
/// sorted in natural, case-insensitive order and numbered from 0.
pub fn book_pages(names: &Vec<String>) -> (pages: PageMap)
    ensures
        is_page_map_of(page_map_entries(pages), views(names@)),
{
    let kept = select_page_names(names);
    let sorted = sort_naturally(kept);
    let mut pages = page_map_new();
    let n = sorted.len();
    let mut i: usize = 0;
    while i < n
        invariant
            n == sorted@.len(),
            i <= n,
            page_map_entries(pages).len() == i,
            numbered_in_order(page_map_entries(pages)),
            forall|k: int| 0 <= k < i ==> (#[trigger] page_map_entries(pages)[k]).1 == sorted@[k]@,
        decreases n - i,
    {
        proof {
            lemma_key_absent(page_map_entries(pages), i);
        }
        page_map_insert(&mut pages, i, sorted[i].clone());
        i = i + 1;
    }
    assert(names_of(page_map_entries(pages)) =~= views(sorted@));
    pages
}

/// The name of the first page: the book's first entry, or `EmptyBook` when it has none.
pub fn first_page_name(pages: &PageMap) -> (r: Result<String, Error>)
    ensures
        page_map_entries(*pages).len() > 0 ==> r is Ok && r->Ok_0@ == page_map_entries(*pages)[0].1,
        page_map_entries(*pages).len() == 0 ==> r == Err::<String, Error>(Error::EmptyBook),
{
    match page_map_get_index(pages, 0) {
        Some(entry) => Ok(entry.1),
        None => Err(Error::EmptyBook),
    }
}

/// Whether a page of the book has the given name.
pub fn has_page(pages: &PageMap, name: &str) -> (r: bool)
    ensures
        r == names_of(page_map_entries(*pages)).contains(name@),
{
    let target = owned(name);
    let n = page_map_len(pages);
    let mut i: usize = 0;
    while i < n
        invariant
            target@ == name@,
            n == page_map_entries(*pages).len(),
            i <= n,
            forall|k: int| 0 <= k < i ==> (#[trigger] page_map_entries(*pages)[k]).1 != name@,
        decreases n - i,
    {
        let entry = page_map_get_index(pages, i).unwrap();
        if entry.1 == target {
            proof {
                assert(names_of(page_map_entries(*pages))[i as int] == name@);
            }
            return true;
        }
        i = i + 1;
    }
    proof {
        if names_of(page_map_entries(*pages)).contains(name@) {
            let k = choose|k: int| 0 <= k < names_of(page_map_entries(*pages)).len()
                && names_of(page_map_entries(*pages))[k] == name@;
            assert(page_map_entries(*pages)[k].1 == name@);
        }
    }
    false
}

} // verus!
