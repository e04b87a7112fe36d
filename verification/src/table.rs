//! The hash map and hash set, keyed by a path's components, in which workers are recorded and
//! open files are kept: `ahash::HashMap` and `ahash::HashSet`, std's collections with
//! `ahash::RandomState`.

use ahash::{HashMapExt, HashSetExt, RandomState};
use std::collections::{HashMap, HashSet};
use crate::natural::views;
use vstd::prelude::*;

verus! {

#[verifier::external_type_specification]
#[verifier::external_body]
pub struct ExRandomState(RandomState);

/// A map from paths, each keyed by its components, to workers.
pub type PathMap = HashMap<Vec<String>, usize, RandomState>;

/// A set of paths, each held as its components.
pub type PathSet = HashSet<Vec<String>, RandomState>;

/// What a map from paths to workers holds: each key, the texts of a path's components,
/// mapped to its value.
pub uninterp spec fn path_map_entries(m: HashMap<Vec<String>, usize, RandomState>) -> Map<Seq<Seq<char>>, usize>;

/// What a set of paths holds: for each path, the texts of its components.
pub uninterp spec fn path_set_entries(s: HashSet<Vec<String>, RandomState>) -> Set<Seq<Seq<char>>>;

/// `ahash::HashMap::new` (through `HashMapExt`): an empty map.
#[verifier::external_body]
pub(crate) fn path_map_new() -> (m: PathMap)
    ensures
        path_map_entries(m).dom() == Set::<Seq<Seq<char>>>::empty(),
{
    <HashMap<Vec<String>, usize, RandomState> as HashMapExt>::new()
}

/// `HashMap::get`, the value copied out: the value for the key, if the map has the key. Two
/// keys are the same key when their strings' texts are equal in order, as the `Eq` and `Hash`
/// of `Vec<String>` agree.
#[verifier::external_body]
pub(crate) fn path_map_get(m: &PathMap, key: &Vec<String>) -> (r: Option<usize>)
    ensures
        r is Some <==> path_map_entries(*m).contains_key(views(key@)),
        r is Some ==> r->0 == path_map_entries(*m)[views(key@)],
{
    m.get(key).copied()
}

/// `HashMap::insert`: the key now maps to the value, replacing the value it had; no other key
/// changes.
#[verifier::external_body]
pub(crate) fn path_map_insert(m: &mut PathMap, key: Vec<String>, value: usize)
    ensures
        path_map_entries(*final(m)) == path_map_entries(*old(m)).insert(views(key@), value),
{
    m.insert(key, value);
}

/// `HashMap::remove`: the key is no longer in the map; no other key changes.
#[verifier::external_body]
pub(crate) fn path_map_remove(m: &mut PathMap, key: &Vec<String>)
    ensures
        path_map_entries(*final(m)) == path_map_entries(*old(m)).remove(views(key@)),
{
    m.remove(key);
}

/// `ahash::HashSet::new` (through `HashSetExt`): an empty set.
#[verifier::external_body]
pub(crate) fn path_set_new() -> (s: PathSet)
    ensures
        path_set_entries(s) == Set::<Seq<Seq<char>>>::empty(),
{
    <HashSet<Vec<String>, RandomState> as HashSetExt>::new()
}

/// `HashSet::contains`: whether the set holds the key.
#[verifier::external_body]
pub(crate) fn path_set_contains(s: &PathSet, key: &Vec<String>) -> (r: bool)
    ensures
        r == path_set_entries(*s).contains(views(key@)),
{
    s.contains(key)
}

/// `HashSet::insert`: the set now holds the key; nothing else changes.
#[verifier::external_body]
pub(crate) fn path_set_insert(s: &mut PathSet, key: Vec<String>)
    ensures
        path_set_entries(*final(s)) == path_set_entries(*old(s)).insert(views(key@)),
{
    s.insert(key);
}

/// `HashSet::remove`: the set no longer holds the key; nothing else changes.
#[verifier::external_body]
pub(crate) fn path_set_remove(s: &mut PathSet, key: &Vec<String>)
    ensures
        path_set_entries(*final(s)) == path_set_entries(*old(s)).remove(views(key@)),
{
    s.remove(key);
}

} // verus!
