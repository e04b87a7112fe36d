//! The archive of a book: which entries are copied when it is rewritten, and where its
//! metadata is kept.

use crate::natural::views;
use crate::text::same_text;
use vstd::prelude::*;

verus! {

/// The name of the archive entry that holds a book's metadata: `kotori.json`, or
/// `kotori-dev.json` for development builds, so that they do not overwrite each other's.
pub open spec fn metadata_file_name_of(dev: bool) -> Seq<char> {
    if dev {
        "kotori-dev.json"@
    } else {
        "kotori.json"@
    }
}

/// The name of the archive entry that holds a book's metadata.
pub fn metadata_file_name(dev: bool) -> (r: &'static str)
    ensures
        r@ == metadata_file_name_of(dev),
{
    if dev {
        "kotori-dev.json"
    } else {
        "kotori.json"
    }
}

/// The names other than `excluded`, in the order they come.
pub open spec fn names_without(names: Seq<Seq<char>>, excluded: Seq<char>) -> Seq<Seq<char>>
    decreases names.len(),
{
    if names.len() == 0 {
        Seq::empty()
    } else if names.last() == excluded {
        names_without(names.drop_last(), excluded)
    } else {
        names_without(names.drop_last(), excluded).push(names.last())
    }
}

/// The entries to copy when an archive is rewritten without the entry `excluded`: all others,
/// in the archive's order. Deleting a page leaves the page out; writing the metadata leaves
/// the old metadata out before the new one is added.
pub fn names_except(names: &Vec<String>, excluded: &str) -> (r: Vec<String>)
    ensures
        views(r@) == names_without(views(names@), excluded@),
{
    let mut r: Vec<String> = Vec::new();
    let n = names.len();
    let mut i: usize = 0;
    while i < n
        invariant
            n == names@.len(),
            i <= n,
            views(r@) == names_without(views(names@).take(i as int), excluded@),
        decreases n - i,
    {
        if !same_text(names[i].as_str(), excluded) {
            r.push(names[i].clone());
        }
        proof {
            let s = views(names@).take(i as int + 1);
            assert(s.drop_last() =~= views(names@).take(i as int));
            assert(views(r@) =~= names_without(s, excluded@));
        }
        i = i + 1;
    }
    assert(views(names@).take(n as int) =~= views(names@));
    r
}

/// Leaving an entry out keeps every other entry, in order, and leaves no entry of that name.
pub proof fn law_names_without(names: Seq<Seq<char>>, excluded: Seq<char>)
    ensures
        !names_without(names, excluded).contains(excluded),
        forall|x: Seq<char>| x != excluded ==> (names_without(names, excluded).contains(x) <==> names.contains(x)),
        names_without(names, excluded).len() <= names.len(),
        !names.contains(excluded) ==> names_without(names, excluded) == names,
    decreases names.len(),
{
    broadcast use vstd::seq_lib::group_seq_properties;
    if names.len() > 0 {
        let d = names.drop_last();
        law_names_without(d, excluded);
        assert(names =~= d.push(names.last()));
        if !names.contains(excluded) {
            assert(!d.contains(excluded));
        }
    }
}

} // verus!
