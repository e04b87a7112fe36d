//! Decisions about the library: which folders to add, which files are books to save, which
//! books to show and which to drop, which book to open at random, and which dropped files open.

use crate::active::ActiveBook;
use crate::error::Error;
use crate::model::Book;
use crate::structs::{shown_as, LibraryBook};
use crate::glob::{is_book, is_book_path};
use crate::natural::views;
use crate::paths::{has_plain_file_name, has_portable_components, lemma_within_itself, occurs_in, path_starts_with, within, AppDirs};
use rand::seq::SliceRandom;
use vstd::prelude::*;

verus! {

/// The texts in the order they first occur, each once.
pub open spec fn first_occurrences(s: Seq<Seq<char>>) -> Seq<Seq<char>>
    decreases s.len(),
{
    if s.len() == 0 {
        Seq::empty()
    } else if s.drop_last().contains(s.last()) {
        first_occurrences(s.drop_last())
    } else {
        first_occurrences(s.drop_last()).push(s.last())
    }
}

proof fn lemma_first_occurrences(s: Seq<Seq<char>>)
    ensures
        forall|x: Seq<char>| first_occurrences(s).contains(x) <==> s.contains(x),
        first_occurrences(s).no_duplicates(),
    decreases s.len(),
{
    broadcast use vstd::seq_lib::group_seq_properties;
    if s.len() > 0 {
        let d = s.drop_last();
        let last = s.last();
        lemma_first_occurrences(d);
        assert(s =~= d.push(last));
        let f = first_occurrences(d);
        if !d.contains(last) {
            let g = f.push(last);
            assert(!f.contains(last));
            assert forall|a: int, b: int| 0 <= a < g.len() && 0 <= b < g.len() && a != b implies g[a] != g[b] by {
                if a < f.len() && b < f.len() {
                } else if a < f.len() {
                    assert(f.contains(g[a]));
                } else {
                    assert(f.contains(g[b]));
                }
            }
        }
    }
}

/// The paths, each once, in the order they first occur (`Itertools::unique`).
pub fn unique_paths(paths: &Vec<String>) -> (r: Vec<String>)
    ensures
        views(r@) == first_occurrences(views(paths@)),
{
    let mut r: Vec<String> = Vec::new();
    let n = paths.len();
    let mut i: usize = 0;
    while i < n
        invariant
            n == paths@.len(),
            i <= n,
            views(r@) == first_occurrences(views(paths@).take(i as int)),
        decreases n - i,
    {
        let mut seen = false;
        let mut j: usize = 0;
        let m = r.len();
        while j < m && !seen
            invariant
                n == paths@.len(),
                i < n,
                m == r@.len(),
                j <= m,
                seen ==> j < m && r@[j as int]@ == paths@[i as int]@,
                !seen ==> forall|k: int| 0 <= k < j ==> r@[k]@ != paths@[i as int]@,
            decreases m - j + (if seen { 0int } else { 1int }),
        {
            if r[j] == paths[i] {
                seen = true;
            } else {
                j = j + 1;
            }
        }
        proof {
            let s = views(paths@).take(i as int + 1);
            assert(s.drop_last() =~= views(paths@).take(i as int));
            lemma_first_occurrences(s.drop_last());
            if seen {
                assert(views(r@)[j as int] == paths@[i as int]@);
            } else {
                assert forall|k: int| 0 <= k < views(r@).len() implies views(r@)[k] != s.last() by {}
            }
        }
        if !seen {
            r.push(paths[i].clone());
        }
        proof {
            let s = views(paths@).take(i as int + 1);
            assert(views(r@) =~= first_occurrences(s));
        }
        i = i + 1;
    }
    assert(views(paths@).take(n as int) =~= views(paths@));
    r
}

/// `a` is `b` with some elements left out, the others in the same order.
pub open spec fn is_subsequence(a: Seq<Seq<char>>, b: Seq<Seq<char>>) -> bool
    decreases b.len(),
{
    if a.len() == 0 {
        true
    } else if b.len() == 0 {
        false
    } else if a.last() == b.last() {
        is_subsequence(a.drop_last(), b.drop_last())
    } else {
        is_subsequence(a, b.drop_last())
    }
}

proof fn lemma_subsequence_contained(a: Seq<Seq<char>>, b: Seq<Seq<char>>)
    requires
        is_subsequence(a, b),
    ensures
        forall|x: Seq<char>| a.contains(x) ==> b.contains(x),
    decreases b.len(),
{
    broadcast use vstd::seq_lib::group_seq_properties;
    if a.len() > 0 && b.len() > 0 {
        if a.last() == b.last() {
            lemma_subsequence_contained(a.drop_last(), b.drop_last());
            assert(a =~= a.drop_last().push(a.last()));
            assert(b =~= b.drop_last().push(b.last()));
        } else {
            lemma_subsequence_contained(a, b.drop_last());
            assert(b =~= b.drop_last().push(b.last()));
        }
    }
}

/// A subsequence of `b` is a subsequence of `b` with one more element at the end.
proof fn lemma_subsequence_append(a: Seq<Seq<char>>, b: Seq<Seq<char>>, x: Seq<char>)
    requires
        is_subsequence(a, b),
    ensures
        is_subsequence(a, b.push(x)),
    decreases b.len(), 1int,
{
    assert(b.push(x).drop_last() =~= b);
    if a.len() > 0 && a.last() == x {
        lemma_subsequence_drop_last(a, b);
    }
}

/// Leaving out the last element of a subsequence leaves a subsequence.
proof fn lemma_subsequence_drop_last(a: Seq<Seq<char>>, b: Seq<Seq<char>>)
    requires
        is_subsequence(a, b),
        a.len() > 0,
    ensures
        is_subsequence(a.drop_last(), b),
    decreases b.len(), 0int,
{
    let b1 = b.drop_last();
    assert(b1.push(b.last()) =~= b);
    if a.last() == b.last() {
        lemma_subsequence_append(a.drop_last(), b1, b.last());
    } else {
        lemma_subsequence_drop_last(a, b1);
        lemma_subsequence_append(a.drop_last(), b1, b.last());
    }
}

/// Whether `paths[i]` repeats a path that comes before it.
fn repeats_earlier(paths: &Vec<String>, i: usize) -> (r: bool)
    requires
        i < paths@.len(),
    ensures
        r == views(paths@).take(i as int).contains(paths@[i as int]@),
{
    let mut p: usize = 0;
    while p < i
        invariant
            i < paths@.len(),
            p <= i,
            forall|j: int| 0 <= j < p ==> paths@[j]@ != paths@[i as int]@,
        decreases i - p,
    {
        if paths[p] == paths[i] {
            assert(views(paths@).take(i as int)[p as int] == paths@[i as int]@);
            return true;
        }
        p = p + 1;
    }
    proof {
        if views(paths@).take(i as int).contains(paths@[i as int]@) {
            let q = choose|q: int| 0 <= q < i && views(paths@).take(i as int)[q] == paths@[i as int]@;
            assert(paths@[q]@ == paths@[i as int]@);
        }
    }
    false
}

/// The first of `bases` within which `folder` lies, as `starts_with` tells.
fn first_base_containing<F: Fn(&String, &String) -> bool>(folder: &String, bases: &Vec<String>, starts_with: &F) -> (r: Option<usize>)
    requires
        forall|a: &String, b: &String| starts_with.requires((a, b)),
    ensures
        r is Some ==> r->0 < bases@.len() && starts_with.ensures((folder, &bases@[r->0 as int]), true),
        r is None ==> forall|l: int| 0 <= l < bases@.len() ==> starts_with.ensures((folder, &bases@[l]), false),
{
    let m = bases.len();
    let mut j: usize = 0;
    while j < m
        invariant
            m == bases@.len(),
            j <= m,
            forall|a: &String, b: &String| starts_with.requires((a, b)),
            forall|l: int| 0 <= l < j ==> starts_with.ensures((folder, &bases@[l]), false),
        decreases m - j,
    {
        if starts_with(folder, &bases[j]) {
            return Some(j);
        }
        j = j + 1;
    }
    None
}

proof fn lemma_subsequence_step(kept: Seq<Seq<char>>, prev: Seq<Seq<char>>, x: Seq<char>, pushed: bool)
    requires
        is_subsequence(kept, first_occurrences(prev)),
        !prev.contains(x),
    ensures
        pushed ==> is_subsequence(kept.push(x), first_occurrences(prev.push(x))),
        !pushed ==> is_subsequence(kept, first_occurrences(prev.push(x))),
{
    let t = prev.push(x);
    assert(t.drop_last() =~= prev);
    let f = first_occurrences(prev);
    assert(first_occurrences(t) == f.push(x));
    assert(kept.push(x).drop_last() =~= kept);
    assert(f.push(x).drop_last() =~= f);
    lemma_subsequence_contained(kept, f);
    lemma_first_occurrences(prev);
    if kept.len() > 0 {
        assert(kept.contains(kept.last()));
    }
}

proof fn lemma_subsequence_repeat(kept: Seq<Seq<char>>, prev: Seq<Seq<char>>, x: Seq<char>)
    requires
        is_subsequence(kept, first_occurrences(prev)),
        prev.contains(x),
    ensures
        is_subsequence(kept, first_occurrences(prev.push(x))),
{
    assert(prev.push(x).drop_last() =~= prev);
}

/// The components of every path of `s` are the same on every platform.
pub open spec fn all_portable(s: Seq<String>) -> bool {
    forall|k: int| 0 <= k < s.len() ==> has_portable_components(#[trigger] s[k]@)
}

/// `f` lies within one of `bases`.
pub open spec fn within_any(f: Seq<char>, bases: Seq<Seq<char>>) -> bool {
    exists|l: int| 0 <= l < bases.len() && within(f, #[trigger] bases[l])
}

/// The folders added to a library whose folders are `library` when `folders` are picked: each
/// folder in order, unless it was picked before, or lies within a library folder or a folder
/// added before it, by whole components.
pub open spec fn folders_added(folders: Seq<Seq<char>>, library: Seq<Seq<char>>) -> Seq<Seq<char>>
    decreases folders.len(),
{
    if folders.len() == 0 {
        Seq::empty()
    } else {
        let prev = folders_added(folders.drop_last(), library);
        let f = folders.last();
        if folders.drop_last().contains(f) || within_any(f, library) || within_any(f, prev) {
            prev
        } else {
            prev.push(f)
        }
    }
}

/// The folders to add to the library among those picked: each distinct folder, in order,
/// unless it lies within a folder of the library or within one added before it, by whole path
/// components (`Path::starts_with`). In particular no folder of the library is added again,
/// nor any folder twice; when the library has no folder, the first folder picked is added; and
/// when the components of every path are the same on every platform (no `\`, no `:`, no
/// leading `//`), the folders added are exactly `folders_added`.
pub fn folders_to_add(folders: &Vec<String>, library: &Vec<String>) -> (kept: Vec<String>)
    ensures
        is_subsequence(views(kept@), first_occurrences(views(folders@))),
        forall|k: int, l: int| 0 <= k < kept@.len() && 0 <= l < library@.len() ==> kept@[k]@ != library@[l]@,
        forall|k: int, l: int| 0 <= l < k < kept@.len() ==> kept@[k]@ != kept@[l]@,
        library@.len() == 0 && folders@.len() > 0 ==> kept@.len() > 0 && kept@[0]@ == folders@[0]@,
        all_portable(folders@) && all_portable(library@) ==> views(kept@) == folders_added(views(folders@), views(library@)),
{
    let starts_with = |a: &String, b: &String| -> (r: bool)
        ensures
            a@ == b@ ==> r,
            has_portable_components(a@) && has_portable_components(b@) ==> r == within(a@, b@),
        { path_starts_with(a.as_str(), b.as_str()) };
    let mut kept: Vec<String> = Vec::new();
    let n = folders.len();
    let mut i: usize = 0;
    while i < n
        invariant
            n == folders@.len(),
            i <= n,
            is_subsequence(views(kept@), first_occurrences(views(folders@).take(i as int))),
            forall|k: int, l: int| 0 <= k < kept@.len() && 0 <= l < library@.len() ==> kept@[k]@ != library@[l]@,
            forall|k: int, l: int| 0 <= l < k < kept@.len() ==> kept@[k]@ != kept@[l]@,
            library@.len() == 0 && i > 0 ==> kept@.len() > 0 && kept@[0]@ == folders@[0]@,
            all_portable(folders@) && all_portable(library@) ==> all_portable(kept@)
                && views(kept@) == folders_added(views(folders@).take(i as int), views(library@)),
            forall|a: &String, b: &String| starts_with.requires((a, b)),
            forall|a: &String, b: &String, r: bool| #[trigger] starts_with.ensures((a, b), r) ==> (a@ == b@ ==> r) && (
            has_portable_components(a@) && has_portable_components(b@) ==> r == within(a@, b@)),
        decreases n - i,
    {
        let ghost prev = views(folders@).take(i as int);
        let ghost x = folders@[i as int]@;
        let ghost before = kept@;
        proof {
            assert(views(folders@).take(i as int + 1) =~= prev.push(x));
            assert(prev.push(x).drop_last() =~= prev);
        }
        if repeats_earlier(folders, i) {
            proof {
                lemma_subsequence_repeat(views(kept@), prev, x);
            }
        } else {
            let folder = &folders[i];
            let in_library = first_base_containing(folder, library, &starts_with);
            let in_kept = if in_library.is_some() { None } else { first_base_containing(folder, &kept, &starts_with) };
            let covered = in_library.is_some() || in_kept.is_some();
            if !covered {
                kept.push(folder.clone());
            }
            proof {
                lemma_subsequence_step(views(before), prev, x, !covered);
                if !covered {
                    assert(views(kept@) =~= views(before).push(x));
                    assert forall|l: int| 0 <= l < library@.len() implies x != library@[l]@ by {
                        assert(starts_with.ensures((&folders@[i as int], &library@[l]), false));
                    }
                    assert forall|l: int| 0 <= l < before.len() implies x != before[l]@ by {
                        assert(starts_with.ensures((&folders@[i as int], &before[l]), false));
                    }
                    assert forall|k: int, l: int| 0 <= l < k < kept@.len() implies kept@[k]@ != kept@[l]@ by {
                        if k < before.len() {
                            assert(kept@[k] == before[k] && kept@[l] == before[l]);
                        } else {
                            assert(kept@[k]@ == x && kept@[l] == before[l]);
                        }
                    }
                    assert forall|k: int, l: int| 0 <= k < kept@.len() && 0 <= l < library@.len() implies kept@[k]@ != library@[l]@ by {
                        if k < before.len() {
                            assert(kept@[k] == before[k]);
                        }
                    }
                    if library@.len() == 0 && i > 0 {
                        assert(kept@[0] == before[0]);
                    }
                } else {
                    assert(views(kept@) =~= views(before));
                }
                if all_portable(folders@) && all_portable(library@) {
                    let lib = views(library@);
                    assert(has_portable_components(x));
                    if in_library is Some {
                        let j = in_library->0 as int;
                        assert(starts_with.ensures((&folders@[i as int], &library@[j]), true));
                        assert(has_portable_components(library@[j]@));
                        assert(lib[j] == library@[j]@);
                        assert(within_any(x, lib));
                    } else {
                        assert forall|l: int| 0 <= l < lib.len() implies !within(x, #[trigger] lib[l]) by {
                            assert(starts_with.ensures((&folders@[i as int], &library@[l]), false));
                            assert(has_portable_components(library@[l]@));
                        }
                        if in_kept is Some {
                            let j = in_kept->0 as int;
                            assert(starts_with.ensures((&folders@[i as int], &before[j]), true));
                            assert(has_portable_components(before[j]@));
                            assert(views(before)[j] == before[j]@);
                            assert(within_any(x, views(before)));
                        } else {
                            assert forall|l: int| 0 <= l < views(before).len() implies !within(x, #[trigger] views(before)[l]) by {
                                assert(starts_with.ensures((&folders@[i as int], &before[l]), false));
                                assert(has_portable_components(before[l]@));
                            }
                            assert forall|k: int| 0 <= k < kept@.len() implies has_portable_components(#[trigger] kept@[k]@) by {
                                if k < before.len() {
                                    assert(kept@[k] == before[k]);
                                }
                            }
                        }
                    }
                }
            }
        }
        i = i + 1;
    }
    assert(views(folders@).take(n as int) =~= views(folders@));
    kept
}

/// The folders added for the first `m` folders picked are the first of those added for all.
proof fn lemma_added_prefix(folders: Seq<Seq<char>>, library: Seq<Seq<char>>, m: int)
    requires
        0 <= m <= folders.len(),
    ensures
        folders_added(folders.take(m), library).len() <= folders_added(folders, library).len(),
        forall|k: int| 0 <= k < folders_added(folders.take(m), library).len()
            ==> folders_added(folders.take(m), library)[k] == #[trigger] folders_added(folders, library)[k],
    decreases folders.len() - m,
{
    if m == folders.len() {
        assert(folders.take(m) =~= folders);
    } else {
        lemma_added_prefix(folders, library, m + 1);
        let next = folders.take(m + 1);
        assert(next.drop_last() =~= folders.take(m));
        assert(next.last() == folders[m]);
    }
}

/// A folder added when the first `m` folders are picked lies within a folder added for all.
proof fn lemma_picked_lies_within_added(folders: Seq<Seq<char>>, library: Seq<Seq<char>>, m: int)
    requires
        0 <= m < folders.len(),
        !folders.take(m).contains(folders[m]),
    ensures
        within_any(folders[m], library + folders_added(folders, library)),
{
    let all = library + folders_added(folders, library);
    let next = folders.take(m + 1);
    let prev = folders_added(folders.take(m), library);
    let f = folders[m];
    assert(next.drop_last() =~= folders.take(m));
    assert(next.last() == f);
    lemma_added_prefix(folders, library, m);
    lemma_added_prefix(folders, library, m + 1);
    if within_any(f, library) {
        let l = choose|l: int| 0 <= l < library.len() && within(f, #[trigger] library[l]);
        assert(all[l] == library[l]);
    } else if within_any(f, prev) {
        let k = choose|k: int| 0 <= k < prev.len() && within(f, #[trigger] prev[k]);
        assert(prev[k] == folders_added(folders, library)[k]);
        assert(all[library.len() + k] == prev[k]);
    } else {
        let added = folders_added(next, library);
        assert(added == prev.push(f));
        let k = prev.len() as int;
        assert(added[k] == f);
        assert(folders_added(folders, library)[k] == f);
        assert(all[library.len() + k] == f);
        lemma_within_itself(f);
        assert(within(f, all[library.len() + k]));
    }
}

proof fn lemma_added_again_is_empty(folders: Seq<Seq<char>>, library: Seq<Seq<char>>, n: int)
    requires
        0 <= n <= folders.len(),
    ensures
        folders_added(folders.take(n), library + folders_added(folders, library)) == Seq::<Seq<char>>::empty(),
    decreases n,
{
    let all = library + folders_added(folders, library);
    if n == 0 {
        assert(folders.take(0) =~= Seq::<Seq<char>>::empty());
    } else {
        lemma_added_again_is_empty(folders, library, n - 1);
        let cur = folders.take(n);
        assert(cur.drop_last() =~= folders.take(n - 1));
        assert(cur.last() == folders[n - 1]);
        if !folders.take(n - 1).contains(folders[n - 1]) {
            lemma_picked_lies_within_added(folders, library, n - 1);
        }
    }
}

/// Picking the same folders again once those added are in the library adds nothing: every
/// folder picked is already within a folder of the library.
pub proof fn law_adding_folders_again_adds_nothing(folders: Seq<Seq<char>>, library: Seq<Seq<char>>)
    ensures
        folders_added(folders, library + folders_added(folders, library)) == Seq::<Seq<char>>::empty(),
{
    lemma_added_again_is_empty(folders, library, folders.len() as int);
    assert(folders.take(folders.len() as int) =~= folders);
}

/// The paths that name book files, in order.
pub open spec fn book_paths_among(paths: Seq<Seq<char>>) -> Seq<Seq<char>>
    decreases paths.len(),
{
    if paths.len() == 0 {
        Seq::empty()
    } else if is_book(paths.last()) {
        book_paths_among(paths.drop_last()).push(paths.last())
    } else {
        book_paths_among(paths.drop_last())
    }
}

/// The book files among the files found in a folder: those named `.cbr`, `.cbz` or `.zip`, in
/// any case, each once.
pub fn select_book_files(files: &Vec<String>) -> (books: Vec<String>)
    ensures
        views(books@) == first_occurrences(book_paths_among(views(files@))),
{
    let mut kept: Vec<String> = Vec::new();
    let n = files.len();
    let mut i: usize = 0;
    while i < n
        invariant
            n == files@.len(),
            i <= n,
            views(kept@) == book_paths_among(views(files@).take(i as int)),
        decreases n - i,
    {
        if is_book_path(files[i].as_str()) {
            kept.push(files[i].clone());
        }
        proof {
            let s = views(files@).take(i as int + 1);
            assert(s.drop_last() =~= views(files@).take(i as int));
            assert(views(kept@) =~= book_paths_among(s));
        }
        i = i + 1;
    }
    assert(views(files@).take(n as int) =~= views(files@));
    unique_paths(&kept)
}

/// The books whose flag in `saved` is false, in order.
pub open spec fn unsaved_of(books: Seq<Seq<char>>, saved: Seq<bool>) -> Seq<Seq<char>>
    decreases books.len(),
{
    if books.len() == 0 || saved.len() != books.len() {
        Seq::empty()
    } else if !saved.last() {
        unsaved_of(books.drop_last(), saved.drop_last()).push(books.last())
    } else {
        unsaved_of(books.drop_last(), saved.drop_last())
    }
}

/// The books not yet in the library, in order: `saved[i]` tells whether `books[i]` is.
pub fn unsaved_books(books: &Vec<String>, saved: &Vec<bool>) -> (r: Vec<String>)
    requires
        books@.len() == saved@.len(),
    ensures
        views(r@) == unsaved_of(views(books@), saved@),
{
    let mut r: Vec<String> = Vec::new();
    let n = books.len();
    let mut i: usize = 0;
    while i < n
        invariant
            n == books@.len() && n == saved@.len(),
            i <= n,
            views(r@) == unsaved_of(views(books@).take(i as int), saved@.take(i as int)),
        decreases n - i,
    {
        if !saved[i] {
            r.push(books[i].clone());
        }
        proof {
            let b = views(books@).take(i as int + 1);
            let f = saved@.take(i as int + 1);
            assert(b.drop_last() =~= views(books@).take(i as int));
            assert(f.drop_last() =~= saved@.take(i as int));
            assert(views(r@) =~= unsaved_of(b, f));
        }
        i = i + 1;
    }
    assert(views(books@).take(n as int) =~= views(books@));
    assert(saved@.take(n as int) =~= saved@);
    r
}

/// `SliceRandom::choose` with the thread's random generator: a uniformly chosen id, or `None`
/// when there is none. Which id comes back depends on chance; what is stated holds whatever it is.
#[verifier::external_body]
fn choose_random(ids: &Vec<i32>) -> (r: Option<i32>)
    ensures
        r is None <==> ids@.len() == 0,
        r is Some ==> ids@.contains(r->0),
{
    ids.as_slice().choose(&mut rand::thread_rng()).copied()
}

/// The id of a book to open at random among the library's, or `None` when the library is empty.
pub fn random_book_id(ids: &Vec<i32>) -> (r: Option<i32>)
    ensures
        r is None <==> ids@.len() == 0,
        r is Some ==> ids@.contains(r->0),
{
    choose_random(ids)
}

/// The paths of opened books.
pub open spec fn active_paths(books: Seq<ActiveBook>) -> Seq<Seq<char>> {
    books.map_values(|b: ActiveBook| b.path@)
}

/// The books among the files dropped on the library window, opened, in the order they were
/// dropped: those named as books and whose file names give a title. The empty path gives none;
/// every book path that ends with a plain file name is opened.
pub fn books_from_dropped_paths(paths: &Vec<String>) -> (books: Vec<ActiveBook>)
    ensures
        is_subsequence(active_paths(books@), book_paths_among(views(paths@))),
        forall|k: int| 0 <= k < paths@.len() && is_book(#[trigger] paths@[k]@) && has_plain_file_name(paths@[k]@)
            ==> active_paths(books@).contains(paths@[k]@),
        forall|k: int| 0 <= k < books@.len() ==> is_book(#[trigger] books@[k].path@)
            && views(paths@).contains(books@[k].path@) && occurs_in(books@[k].title.0@, books@[k].path@),
        forall|k: int| 0 <= k < books@.len() ==> (#[trigger] books@[k]).id is None && books@[k].pages is None,
{
    let mut books: Vec<ActiveBook> = Vec::new();
    let n = paths.len();
    let mut i: usize = 0;
    while i < n
        invariant
            n == paths@.len(),
            i <= n,
            is_subsequence(active_paths(books@), book_paths_among(views(paths@).take(i as int))),
            forall|k: int| 0 <= k < i && is_book(#[trigger] paths@[k]@) && has_plain_file_name(paths@[k]@)
                ==> active_paths(books@).contains(paths@[k]@),
            forall|k: int| 0 <= k < books@.len() ==> is_book(#[trigger] books@[k].path@)
                && views(paths@).contains(books@[k].path@) && occurs_in(books@[k].title.0@, books@[k].path@),
            forall|k: int| 0 <= k < books@.len() ==> (#[trigger] books@[k]).id is None && books@[k].pages is None,
        decreases n - i,
    {
        let ghost before = active_paths(books@);
        let ghost prev = book_paths_among(views(paths@).take(i as int));
        let ghost p = paths@[i as int]@;
        proof {
            let t = views(paths@).take(i as int + 1);
            assert(t.drop_last() =~= views(paths@).take(i as int));
            assert(t.last() == p);
        }
        if is_book_path(paths[i].as_str()) {
            match ActiveBook::new(paths[i].as_str()) {
                Ok(book) => {
                    proof {
                        assert(views(paths@)[i as int] == book.path@);
                    }
                    books.push(book);
                    proof {
                        assert(active_paths(books@) =~= before.push(p));
                        assert(active_paths(books@)[before.len() as int] == p);
                        assert forall|k: int| 0 <= k < i + 1 && is_book(#[trigger] paths@[k]@) && has_plain_file_name(paths@[k]@)
                            implies active_paths(books@).contains(paths@[k]@) by {
                            if k < i {
                                let w = choose|w: int| 0 <= w < before.len() && before[w] == paths@[k]@;
                                assert(active_paths(books@)[w] == paths@[k]@);
                            }
                        }
                        assert(before.push(p).drop_last() =~= before);
                        assert(prev.push(p).drop_last() =~= prev);
                    }
                },
                Err(_) => {
                    proof {
                        lemma_subsequence_append(before, prev, p);
                    }
                },
            }
        }
        i = i + 1;
    }
    assert(views(paths@).take(n as int) =~= views(paths@));
    books
}

/// The first book among the files dropped on a reader window, which opens in it.
pub fn first_dropped_book(paths: &Vec<String>) -> (r: Option<String>)
    ensures
        r is Some <==> exists|k: int| 0 <= k < paths@.len() && is_book(#[trigger] paths@[k]@),
        r is Some ==> exists|k: int| 0 <= k < paths@.len() && is_book(#[trigger] paths@[k]@)
            && paths@[k]@ == r->0@ && forall|j: int| 0 <= j < k ==> !is_book(#[trigger] paths@[j]@),
{
    let n = paths.len();
    let mut i: usize = 0;
    while i < n
        invariant
            n == paths@.len(),
            i <= n,
            forall|j: int| 0 <= j < i ==> !is_book(#[trigger] paths@[j]@),
        decreases n - i,
    {
        if is_book_path(paths[i].as_str()) {
            return Some(paths[i].clone());
        }
        i = i + 1;
    }
    None
}

/// The ids of the books whose flag holds, in order.
pub open spec fn ids_where(books: Seq<Book>, flags: Seq<bool>) -> Seq<i32>
    decreases books.len(),
{
    if books.len() == 0 || flags.len() != books.len() {
        Seq::empty()
    } else if flags.last() {
        ids_where(books.drop_last(), flags.drop_last()).push(books.last().id)
    } else {
        ids_where(books.drop_last(), flags.drop_last())
    }
}

/// The positions where the flag holds, in order.
pub open spec fn positions_where(flags: Seq<bool>) -> Seq<int>
    decreases flags.len(),
{
    if flags.len() == 0 {
        Seq::empty()
    } else if flags.last() {
        positions_where(flags.drop_last()).push(flags.len() - 1)
    } else {
        positions_where(flags.drop_last())
    }
}

/// Each flag negated.
pub open spec fn negated(flags: Seq<bool>) -> Seq<bool> {
    flags.map_values(|b: bool| !b)
}

/// Whether each book's file exists and its cover was not extracted.
pub open spec fn needs_cover(file_exists: Seq<bool>, cover_exists: Seq<bool>) -> Seq<bool> {
    Seq::new(file_exists.len(), |i: int| file_exists[i] && !cover_exists[i])
}

/// The library as the library window shows it.
pub struct LibraryListing {
    /// The books whose files exist, in the library's order.
    pub books: Vec<LibraryBook>,
    /// The ids of the books whose files are gone: they leave the library.
    pub missing: Vec<i32>,
    /// The ids of the books shown without a cover: their covers are to be extracted.
    pub covers_to_extract: Vec<i32>,
}

/// `shown[k]` is how the library shows the book at `positions[k]`, a position below `bound`.
pub open spec fn shows_book_at(
    books: Seq<Book>,
    cache: Seq<char>,
    cover_exists: Seq<bool>,
    positions: Seq<int>,
    shown: Seq<LibraryBook>,
    bound: int,
    k: int,
) -> bool {
    &&& 0 <= positions[k] < bound
    &&& shown_as(books[positions[k]], cache, cover_exists[positions[k]], shown[k])
}

/// Each of `shown` is how the library shows the book at the same place of `positions`.
pub open spec fn shows_books_at(
    books: Seq<Book>,
    cache: Seq<char>,
    cover_exists: Seq<bool>,
    positions: Seq<int>,
    shown: Seq<LibraryBook>,
    bound: int,
) -> bool {
    &&& shown.len() == positions.len()
    &&& forall|k: int| 0 <= k < shown.len() ==> #[trigger] shows_book_at(books, cache, cover_exists, positions, shown, bound, k)
}

/// Showing one more book, at position `i`, after the books shown before.
proof fn lemma_shows_one_more(
    books: Seq<Book>,
    cache: Seq<char>,
    cover_exists: Seq<bool>,
    positions: Seq<int>,
    shown: Seq<LibraryBook>,
    i: int,
    book: LibraryBook,
)
    requires
        shows_books_at(books, cache, cover_exists, positions, shown, i),
        0 <= i,
        shown_as(books[i], cache, cover_exists[i], book),
    ensures
        shows_books_at(books, cache, cover_exists, positions.push(i), shown.push(book), i + 1),
{
    let p = positions.push(i);
    let s = shown.push(book);
    assert forall|k: int| 0 <= k < s.len() implies #[trigger] shows_book_at(books, cache, cover_exists, p, s, i + 1, k) by {
        if k < shown.len() {
            assert(shows_book_at(books, cache, cover_exists, positions, shown, i, k));
            assert(s[k] == shown[k]);
            assert(p[k] == positions[k]);
        }
    }
}

/// What is shown below a bound is shown below a larger one.
proof fn lemma_shows_below(
    books: Seq<Book>,
    cache: Seq<char>,
    cover_exists: Seq<bool>,
    positions: Seq<int>,
    shown: Seq<LibraryBook>,
    bound: int,
)
    requires
        shows_books_at(books, cache, cover_exists, positions, shown, bound),
    ensures
        shows_books_at(books, cache, cover_exists, positions, shown, bound + 1),
{
    assert forall|k: int| 0 <= k < shown.len() implies #[trigger] shows_book_at(books, cache, cover_exists, positions, shown, bound + 1, k) by {
        assert(shows_book_at(books, cache, cover_exists, positions, shown, bound, k));
    }
}

/// The books of the library to show, given which books' files exist and which books' covers
/// were extracted: each book whose file exists, as `LibraryBook::from_model` shows it, and the
/// ids of the books whose files are gone and of those shown without a cover.
/// `IntegerOutOfRange` when a book to show has a rating that does not fit a `u8`.
pub fn library_listing(dirs: &AppDirs, books: &Vec<Book>, file_exists: &Vec<bool>, cover_exists: &Vec<bool>) -> (r: Result<
    LibraryListing,
    Error,
>)
    requires
        books@.len() == file_exists@.len(),
        books@.len() == cover_exists@.len(),
    ensures
        r is Err <==> exists|i: int| 0 <= i < books@.len() && file_exists@[i] && !(0 <= #[trigger] books@[i].rating <= 255),
        r is Err ==> r == Err::<LibraryListing, Error>(Error::IntegerOutOfRange),
        r is Ok ==> {
            let l = r->Ok_0;
            &&& shows_books_at(books@, dirs.app_cache_dir@, cover_exists@, positions_where(file_exists@), l.books@, books@.len() as int)
            &&& l.missing@ == ids_where(books@, negated(file_exists@))
            &&& l.covers_to_extract@ == ids_where(books@, needs_cover(file_exists@, cover_exists@))
        },
{
    let mut shown: Vec<LibraryBook> = Vec::new();
    let mut missing: Vec<i32> = Vec::new();
    let mut covers: Vec<i32> = Vec::new();
    let n = books.len();
    let mut i: usize = 0;
    while i < n
        invariant
            n == books@.len() && n == file_exists@.len() && n == cover_exists@.len(),
            i <= n,
            forall|j: int| 0 <= j < i ==> file_exists@[j] ==> 0 <= #[trigger] books@[j].rating <= 255,
            shows_books_at(books@, dirs.app_cache_dir@, cover_exists@, positions_where(file_exists@.take(i as int)), shown@, i as int),
            missing@ == ids_where(books@.take(i as int), negated(file_exists@).take(i as int)),
            covers@ == ids_where(books@.take(i as int), needs_cover(file_exists@, cover_exists@).take(i as int)),
        decreases n - i,
    {
        let ghost prev = positions_where(file_exists@.take(i as int));
        let ghost now = positions_where(file_exists@.take(i as int + 1));
        proof {
            assert(file_exists@.take(i as int + 1).drop_last() =~= file_exists@.take(i as int));
            assert(books@.take(i as int + 1).drop_last() =~= books@.take(i as int));
            assert(negated(file_exists@).take(i as int + 1).drop_last() =~= negated(file_exists@).take(i as int));
            assert(needs_cover(file_exists@, cover_exists@).take(i as int + 1).drop_last() =~= needs_cover(
                file_exists@,
                cover_exists@,
            ).take(i as int));
        }
        if file_exists[i] {
            match LibraryBook::from_model(dirs, &books[i], cover_exists[i]) {
                Ok(book) => {
                    let has_cover = book.cover.is_some();
                    let ghost before = shown@;
                    shown.push(book);
                    proof {
                        assert(now == prev.push(i as int));
                        lemma_shows_one_more(books@, dirs.app_cache_dir@, cover_exists@, prev, before, i as int, book);
                    }
                    if !has_cover {
                        covers.push(books[i].id);
                    }
                },
                Err(err) => {
                    return Err(err);
                },
            }
        } else {
            missing.push(books[i].id);
            proof {
                assert(now == prev);
                lemma_shows_below(books@, dirs.app_cache_dir@, cover_exists@, prev, shown@, i as int);
            }
        }
        i = i + 1;
    }
    proof {
        assert(file_exists@.take(n as int) =~= file_exists@);
        assert(books@.take(n as int) =~= books@);
        assert(negated(file_exists@).take(n as int) =~= negated(file_exists@));
        assert(needs_cover(file_exists@, cover_exists@).take(n as int) =~= needs_cover(file_exists@, cover_exists@));
    }
    Ok(LibraryListing { books: shown, missing, covers_to_extract: covers })
}

/// `idx` lists, in increasing order, positions of `books` whose flag in `saved` is false, and
/// `kept[j]` is the book at `idx[j]`; every position whose flag is false is listed.
pub open spec fn lists_unsaved(books: Seq<Seq<char>>, saved: Seq<bool>, kept: Seq<Seq<char>>, idx: Seq<int>) -> bool {
    &&& idx.len() == kept.len()
    &&& forall|j: int| 0 <= j < idx.len() ==> 0 <= #[trigger] idx[j] < books.len() && !saved[idx[j]] && kept[j] == books[idx[j]]
    &&& forall|i: int, j: int| 0 <= i < j < idx.len() ==> idx[i] < idx[j]
    &&& forall|k: int| 0 <= k < books.len() && !#[trigger] saved[k] ==> exists|j: int| 0 <= j < idx.len() && idx[j] == k
}

proof fn lemma_unsaved_positions(books: Seq<Seq<char>>, saved: Seq<bool>) -> (idx: Seq<int>)
    requires
        books.len() == saved.len(),
    ensures
        lists_unsaved(books, saved, unsaved_of(books, saved), idx),
    decreases books.len(),
{
    if books.len() == 0 {
        Seq::empty()
    } else {
        let n = books.len() - 1;
        let pb = books.drop_last();
        let ps = saved.drop_last();
        let prev = lemma_unsaved_positions(pb, ps);
        let kept = unsaved_of(books, saved);
        assert forall|k: int| 0 <= k < n implies saved[k] == ps[k] && books[k] == pb[k] by {}
        if !saved.last() {
            let idx = prev.push(n);
            assert(kept == unsaved_of(pb, ps).push(books.last()));
            assert forall|k: int| 0 <= k < books.len() && !#[trigger] saved[k] implies exists|j: int| 0 <= j < idx.len() && idx[j] == k by {
                if k < n {
                    assert(!ps[k]);
                    let j = choose|j: int| 0 <= j < prev.len() && prev[j] == k;
                    assert(idx[j] == k);
                } else {
                    assert(idx[prev.len() as int] == k);
                }
            }
            idx
        } else {
            assert(kept == unsaved_of(pb, ps));
            assert forall|k: int| 0 <= k < books.len() && !#[trigger] saved[k] implies exists|j: int| 0 <= j < prev.len() && prev[j] == k by {
                assert(k < n);
                assert(!ps[k]);
            }
            prev
        }
    }
}

/// The books kept to be saved are exactly those whose flag says they are not in the library:
/// each such book is kept, and every book kept is one of them, in the order they come.
pub proof fn law_unsaved_books_are_those_not_saved(books: Seq<Seq<char>>, saved: Seq<bool>)
    requires
        books.len() == saved.len(),
    ensures
        exists|idx: Seq<int>| lists_unsaved(books, saved, unsaved_of(books, saved), idx),
        forall|k: int| 0 <= k < books.len() && !saved[k] ==> unsaved_of(books, saved).contains(#[trigger] books[k]),
        forall|x: Seq<char>| unsaved_of(books, saved).contains(x) ==> exists|k: int| 0 <= k < books.len() && !saved[k] && #[trigger] books[k] == x,
{
    let idx = lemma_unsaved_positions(books, saved);
    let kept = unsaved_of(books, saved);
    assert forall|k: int| 0 <= k < books.len() && !saved[k] implies kept.contains(#[trigger] books[k]) by {
        let j = choose|j: int| 0 <= j < idx.len() && idx[j] == k;
        assert(kept[j] == books[k]);
    }
    assert forall|x: Seq<char>| kept.contains(x) implies exists|k: int| 0 <= k < books.len() && !saved[k] && #[trigger] books[k] == x by {
        let j = choose|j: int| 0 <= j < kept.len() && kept[j] == x;
        assert(books[idx[j]] == x);
    }
}

proof fn lemma_book_paths_among(paths: Seq<Seq<char>>)
    ensures
        forall|x: Seq<char>| #[trigger] book_paths_among(paths).contains(x) <==> paths.contains(x) && is_book(x),
    decreases paths.len(),
{
    broadcast use vstd::seq_lib::group_seq_properties;
    if paths.len() > 0 {
        let d = paths.drop_last();
        lemma_book_paths_among(d);
        assert(paths =~= d.push(paths.last()));
        if is_book(paths.last()) {
            assert(book_paths_among(paths) == book_paths_among(d).push(paths.last()));
        } else {
            assert(book_paths_among(paths) == book_paths_among(d));
        }
    }
}

/// The book files selected among the files found are those whose names are books, each once:
/// a path is selected exactly when it is among the files and names a `.cbr`, `.cbz` or `.zip`
/// file, and no path is selected twice.
pub proof fn law_book_files_are_the_books_found(files: Seq<Seq<char>>)
    ensures
        forall|x: Seq<char>| #[trigger] first_occurrences(book_paths_among(files)).contains(x)
            <==> files.contains(x) && is_book(x),
        first_occurrences(book_paths_among(files)).no_duplicates(),
{
    lemma_book_paths_among(files);
    lemma_first_occurrences(book_paths_among(files));
    assert forall|x: Seq<char>| #[trigger] first_occurrences(book_paths_among(files)).contains(x)
        <==> files.contains(x) && is_book(x) by {
        assert(book_paths_among(files).contains(x) <==> files.contains(x) && is_book(x));
        assert(first_occurrences(book_paths_among(files)).contains(x) <==> book_paths_among(files).contains(x));
    }
}

} // verus!
