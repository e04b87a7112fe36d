//! The insertion-ordered map that holds a book's pages, declared for Verus.

use ahash::AHasher;
use indexmap::IndexMap;
use std::hash::BuildHasherDefault;
use vstd::prelude::*;

verus! {

#[verifier::external_type_specification]
#[verifier::external_body]
#[verifier::reject_recursive_types(K)]
#[verifier::reject_recursive_types(V)]
#[verifier::reject_recursive_types(S)]
pub struct ExIndexMap<K, V, S>(IndexMap<K, V, S>);

#[verifier::external_type_specification]
#[verifier::external_body]
#[verifier::reject_recursive_types(H)]
pub struct ExBuildHasherDefault<H>(BuildHasherDefault<H>);

#[verifier::external_type_specification]
#[verifier::external_body]
pub struct ExAHasher(AHasher);

/// Pages of a book: the page index, in reading order, mapped to the page's file name.
pub type PageMap = IndexMap<usize, String, BuildHasherDefault<AHasher>>;

/// The entries of a page map, in the map's order, each as its key and the view of its value.
pub uninterp spec fn page_map_entries(m: IndexMap<usize, String, BuildHasherDefault<AHasher>>) -> Seq<(usize, Seq<char>)>;

/// The position of the first entry with key `k`, or -1 when none has it.
pub open spec fn key_position(entries: Seq<(usize, Seq<char>)>, k: usize) -> int
    decreases entries.len(),
{
    if entries.len() == 0 {
        -1
    } else if entries.last().0 == k && key_position(entries.drop_last(), k) == -1 {
        entries.len() - 1
    } else {
        key_position(entries.drop_last(), k)
    }
}

/// `IndexMap::default`: an empty map.
#[verifier::external_body]
pub(crate) fn page_map_new() -> (m: PageMap)
    ensures
        page_map_entries(m) == Seq::<(usize, Seq<char>)>::empty(),
{
    IndexMap::default()
}

/// `IndexMap::insert`: a key that is already there keeps its place and takes the new value,
/// and the old value comes back; a new key goes last, and `None` comes back.
#[verifier::external_body]
pub(crate) fn page_map_insert(m: &mut PageMap, key: usize, value: String) -> (r: Option<String>)
    ensures
        key_position(page_map_entries(*old(m)), key) >= 0 ==> {
            let i = key_position(page_map_entries(*old(m)), key);
            &&& page_map_entries(*final(m)) == page_map_entries(*old(m)).update(i, (key, value@))
            &&& r is Some
            &&& r->0@ == page_map_entries(*old(m))[i].1
        },
        key_position(page_map_entries(*old(m)), key) < 0 ==> {
            &&& page_map_entries(*final(m)) == page_map_entries(*old(m)).push((key, value@))
            &&& r is None
        },
{
    m.insert(key, value)
}

/// `IndexMap::len`: the number of entries.
#[verifier::external_body]
pub(crate) fn page_map_len(m: &PageMap) -> (n: usize)
    ensures
        n == page_map_entries(*m).len(),
{
    m.len()
}

/// `IndexMap::get_index`: the entry at position `i`, copied out, or `None` past the end. A map
/// holds each key once, so no other entry has the key of the one returned.
#[verifier::external_body]
pub(crate) fn page_map_get_index(m: &PageMap, i: usize) -> (r: Option<(usize, String)>)
    ensures
        i < page_map_entries(*m).len() ==> r is Some,
        i < page_map_entries(*m).len() ==> forall|j: int| 0 <= j < page_map_entries(*m).len() && j != i
            ==> #[trigger] page_map_entries(*m)[j].0 != (r->0).0,
        i < page_map_entries(*m).len() ==> (r->0).0 == page_map_entries(*m)[i as int].0,
        i < page_map_entries(*m).len() ==> (r->0).1@ == page_map_entries(*m)[i as int].1,
        i >= page_map_entries(*m).len() ==> r is None,
{
    m.get_index(i).map(|(k, v)| (*k, v.clone()))
}

} // verus!
