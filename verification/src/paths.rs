//! Paths of books and of the application's cache, held as strings.

use crate::error::Error;
use crate::natural::views;
use crate::text::{
    chars_of, decimal, has_prefix, has_suffix, i32_to_decimal, is_ascii_digit, lemma_decimal_digits, lemma_decimal_injective, owned,
    signed_decimal, string_from_chars,
};
use std::path::Path;
use vstd::prelude::*;

verus! {

/// `s` occurs in `p` as a run of consecutive characters.
pub open spec fn occurs_in(s: Seq<char>, p: Seq<char>) -> bool {
    exists|i: int| 0 <= i && i + s.len() <= p.len() && #[trigger] p.subrange(i, i + s.len()) == s
}

/// `Path::parent`, as a string. What the parent is depends on the platform's separators;
/// what holds on every platform, and is stated: the empty path and the root `/`, a path of a
/// root component alone, have no parent, and a parent
/// is what is left of the path once its final component is cut off, so the path begins with it;
/// as `parent` is `None` only for the empty path and a path that ends in a root or a prefix, a
/// path that ends with a plain file name has a parent; and for a plain path, whose components
/// are the parts between its `/`s, the parent is `parent_of` the path: the text before the last
/// `/`, with the root `/` kept, and empty when there is no `/`.
#[verifier::external_body]
fn path_parent(path: &str) -> (r: Option<String>)
    ensures
        path@.len() == 0 ==> r is None,
        path@ == seq!['/'] ==> r is None,
        has_plain_file_name(path@) ==> r is Some,
        is_plain_path(path@) ==> r is Some && r->0@ == parent_of(path@),
        r is Some ==> r->0@.len() <= path@.len() && path@.subrange(0, r->0@.len() as int) == r->0@,
{
    Path::new(path).parent().and_then(|p| p.to_str()).map(|p| p.to_owned())
}

/// The position of the last `c` in `s`, or -1 when there is none.
pub open spec fn last_index_of(s: Seq<char>, c: char) -> int
    decreases s.len(),
{
    if s.len() == 0 {
        -1
    } else if s.last() == c {
        s.len() - 1
    } else {
        last_index_of(s.drop_last(), c)
    }
}

/// The last part of a path, after its last `/`.
pub open spec fn file_name_of(p: Seq<char>) -> Seq<char> {
    p.subrange(last_index_of(p, '/') + 1, p.len() as int)
}

/// The stem of a file name, as `Path::file_stem` documents it: the whole name when it holds no
/// `.`, or when its only `.` is its first character; otherwise the part before the last `.`.
pub open spec fn stem_of(name: Seq<char>) -> Seq<char> {
    let d = last_index_of(name, '.');
    if d <= 0 {
        name
    } else {
        name.subrange(0, d)
    }
}

/// The extension of a file name, as `Path::extension` documents it: none when the name holds
/// no `.`, or when its only `.` is its first character; otherwise the part after the last `.`.
pub open spec fn extension_of(name: Seq<char>) -> Option<Seq<char>> {
    let d = last_index_of(name, '.');
    if d <= 0 {
        None
    } else {
        Some(name.subrange(d + 1, name.len() as int))
    }
}

/// The parent of a plain path: the text before its last `/`; `/` when that `/` is the first
/// character; empty when there is no `/`.
pub open spec fn parent_of(p: Seq<char>) -> Seq<char> {
    let k = last_index_of(p, '/');
    if k < 0 {
        Seq::empty()
    } else if k == 0 {
        seq!['/']
    } else {
        p.subrange(0, k)
    }
}

/// Two `/` in a row at `i`.
pub open spec fn double_slash_at(p: Seq<char>, i: int) -> bool {
    p[i] == '/' && p[i + 1] == '/'
}

/// A `.` standing alone between two `/` at `i`.
pub open spec fn dot_part_at(p: Seq<char>, i: int) -> bool {
    p[i] == '/' && p[i + 1] == '.' && p[i + 2] == '/'
}

/// A path that ends with a plain file name and whose every part between `/`s is a plain
/// name: no `//` and no part `.` anywhere. Its components are exactly those parts, after a
/// root when it begins with `/`, on every platform.
pub open spec fn is_plain_path(p: Seq<char>) -> bool {
    &&& has_plain_file_name(p)
    &&& forall|i: int| 0 <= i < p.len() - 1 ==> !#[trigger] double_slash_at(p, i)
    &&& forall|i: int| 0 <= i < p.len() - 2 ==> !#[trigger] dot_part_at(p, i)
    &&& !(p.len() >= 2 && p[0] == '.' && p[1] == '/')
}

/// A path that ends with a file name on every platform: it holds no `\` and no `:`, so it has
/// no Windows prefix; it does not begin with `//`; it does not end with `/`; and its last part,
/// after its last `/`, is neither `.` nor `..`. Such a path's final component is that last part.
pub open spec fn has_plain_file_name(p: Seq<char>) -> bool {
    &&& p.len() > 0
    &&& forall|i: int| 0 <= i < p.len() ==> #[trigger] p[i] != '\\' && p[i] != ':'
    &&& !(p.len() >= 2 && p[0] == '/' && p[1] == '/')
    &&& p.last() != '/'
    &&& p != seq!['.'] && p != seq!['.', '.']
    &&& !has_suffix(p, seq!['/', '.']) && !has_suffix(p, seq!['/', '.', '.'])
}

/// `Path::file_stem`, as a string. Which part is the file name depends on the platform's
/// separators; what holds on every platform, and is stated: the empty path has no stem; a stem
/// is a part of the path's final component, so it occurs in the path; and, as `file_stem` is
/// `None` only when there is no file name, and `file_name` only when the path has no final
/// component or ends in `..`, a path that ends with a plain file name has a stem: that file
/// name, its last part after its last `/`, cut as `stem_of` says.
#[verifier::external_body]
fn path_file_stem(path: &str) -> (r: Option<String>)
    ensures
        path@.len() == 0 ==> r is None,
        r is Some ==> occurs_in(r->0@, path@),
        has_plain_file_name(path@) ==> r is Some && r->0@ == stem_of(file_name_of(path@)),
{
    Path::new(path).file_stem().and_then(|s| s.to_str()).map(|s| s.to_owned())
}

/// A character that may stand in a path component pushed by `path_join`.
pub open spec fn is_plain_component_char(c: char) -> bool {
    ('a' <= c && c <= 'z') || ('A' <= c && c <= 'Z') || ('0' <= c && c <= '9') || c == '-' || c == '.'
}

/// A relative path of one component, made of letters, digits, `-` and `.`, that does not
/// begin with `.` (so it is neither `.` nor `..`).
pub open spec fn is_plain_component(s: Seq<char>) -> bool {
    &&& s.len() > 0
    &&& s[0] != '.'
    &&& forall|i: int| 0 <= i < s.len() ==> is_plain_component_char(#[trigger] s[i])
}

/// `r` is `component` pushed onto `base`: `base`, then a separator when one is needed, then
/// `component`.
pub open spec fn join_of(base: Seq<char>, component: Seq<char>, r: Seq<char>) -> bool {
    ||| r == base + component
    ||| r == base + seq!['/'] + component
    ||| r == base + seq!['\\'] + component
}

/// `Path::join` with a one-component relative path, as a string. `PathBuf::push` appends a
/// relative path that has neither root nor prefix to the base, after the platform's separator
/// when the base does not already end with one; it changes the base only when the base has a
/// verbatim prefix (`\\?\`), which a base without `?` does not have. Which separator, and
/// whether one is needed, depends on the platform: both are left open.
#[verifier::external_body]
pub(crate) fn path_join(base: &str, component: &str) -> (r: String)
    requires
        is_plain_component(component@),
    ensures
        has_suffix(r@, component@),
        !base@.contains('?') ==> join_of(base@, component@, r@),
{
    Path::new(base).join(component).to_string_lossy().into_owned()
}

/// A part to keep as a component: neither empty (between two `/` in a row, or after a
/// trailing `/`) nor `.`.
pub open spec fn keeps_part(part: Seq<char>) -> bool {
    part.len() > 0 && part != seq!['.']
}

/// The parts of `p` between its `/`s that are done, and the part still being read.
pub open spec fn parts_read(p: Seq<char>) -> (Seq<Seq<char>>, Seq<char>)
    decreases p.len(),
{
    if p.len() == 0 {
        (Seq::empty(), Seq::empty())
    } else {
        let (done, part) = parts_read(p.drop_last());
        if p.last() == '/' {
            (if keeps_part(part) { done.push(part) } else { done }, Seq::empty())
        } else {
            (done, part.push(p.last()))
        }
    }
}

/// The parts of `p` between its `/`s, without empty parts and `.` parts, in order.
pub open spec fn kept_parts(p: Seq<char>) -> Seq<Seq<char>> {
    let (done, part) = parts_read(p);
    if keeps_part(part) {
        done.push(part)
    } else {
        done
    }
}

/// The components of a path, as `Path::components` documents them for a path without a
/// prefix and with `/` as its one separator: the root `/` when the path begins with `/`; a
/// leading `.` when the path is `.` or begins with `./`; then the parts between `/`s, repeated
/// separators, `.` parts and a trailing `/` being normalized away.
pub open spec fn components(p: Seq<char>) -> Seq<Seq<char>> {
    if p.len() > 0 && p[0] == '/' {
        seq![seq!['/']] + kept_parts(p)
    } else if p.len() > 0 && p[0] == '.' && (p.len() == 1 || p[1] == '/') {
        seq![seq!['.']] + kept_parts(p)
    } else {
        kept_parts(p)
    }
}

/// The components of a path, each as a string, as `components` says: the key by which
/// `PathBuf`'s `Eq` and `Hash` tell paths apart, on every platform for a path whose components
/// are the same on every platform.
pub fn path_components(path: &str) -> (r: Vec<String>)
    ensures
        views(r@) == components(path@),
{
    let chars = chars_of(path);
    let n = chars.len();
    let mut r: Vec<String> = Vec::new();
    proof {
        reveal_strlit("/");
        reveal_strlit(".");
    }
    let ghost head = if path@.len() > 0 && path@[0] == '/' {
        seq![seq!['/']]
    } else if path@.len() > 0 && path@[0] == '.' && (path@.len() == 1 || path@[1] == '/') {
        seq![seq!['.']]
    } else {
        Seq::<Seq<char>>::empty()
    };
    if n > 0 && chars[0] == '/' {
        let root = owned("/");
        r.push(root);
        proof {
            assert("/"@ =~= seq!['/']);
            assert(views(r@) =~= head);
        }
    } else if n > 0 && chars[0] == '.' && (n == 1 || chars[1] == '/') {
        let cur = owned(".");
        r.push(cur);
        proof {
            assert("."@ =~= seq!['.']);
            assert(views(r@) =~= head);
        }
    } else {
        proof {
            assert(views(r@) =~= head);
        }
    }
    proof {
        assert(parts_read(chars@.subrange(0, 0)) == (Seq::<Seq<char>>::empty(), Seq::<char>::empty()));
        assert(views(r@) =~= head + Seq::<Seq<char>>::empty());
    }
    let mut start: usize = 0;
    let mut i: usize = 0;
    while i < n
        invariant
            n == chars@.len(),
            chars@ == path@,
            start <= i <= n,
            views(r@) == head + parts_read(chars@.subrange(0, i as int)).0,
            chars@.subrange(start as int, i as int) == parts_read(chars@.subrange(0, i as int)).1,
        decreases n - i,
    {
        let ghost prev = chars@.subrange(0, i as int);
        let ghost part = chars@.subrange(start as int, i as int);
        proof {
            assert(chars@.subrange(0, i + 1).drop_last() =~= prev);
            assert(chars@.subrange(0, i + 1).last() == chars@[i as int]);
        }
        if chars[i] == '/' {
            let keep = i > start && !(i - start == 1 && chars[start] == '.');
            proof {
                if i - start == 1 {
                    assert(part.len() == 1 && part[0] == chars@[start as int]);
                    if chars@[start as int] == '.' {
                        assert(part =~= seq!['.']);
                    } else {
                        assert(part != seq!['.']);
                    }
                } else if i > start {
                    assert(part.len() != 1);
                }
                assert(keep == keeps_part(part));
            }
            if keep {
                let piece = string_from_chars(&chars, start, i);
                let ghost before = r@;
                r.push(piece);
                proof {
                    assert(views(r@) =~= views(before).push(piece@));
                }
            }
            start = i + 1;
            proof {
                assert(chars@.subrange(start as int, i + 1) =~= Seq::<char>::empty());
            }
        } else {
            proof {
                assert(chars@.subrange(start as int, i + 1) =~= part.push(chars@[i as int]));
            }
        }
        i = i + 1;
    }
    proof {
        assert(chars@.subrange(0, n as int) =~= path@);
    }
    let keep = n > start && !(n - start == 1 && chars[start] == '.');
    let ghost part = chars@.subrange(start as int, n as int);
    proof {
        if n - start == 1 {
            assert(part.len() == 1 && part[0] == chars@[start as int]);
            if chars@[start as int] == '.' {
                assert(part =~= seq!['.']);
            } else {
                assert(part != seq!['.']);
            }
        } else if n > start {
            assert(part.len() != 1);
        }
        assert(keep == keeps_part(part));
    }
    if keep {
        let piece = string_from_chars(&chars, start, n);
        let ghost before = r@;
        r.push(piece);
        proof {
            assert(views(r@) =~= views(before).push(piece@));
        }
    }
    proof {
        let (done, last) = parts_read(path@);
        if keep {
            assert(views(r@) =~= head + done.push(last));
        } else {
            assert(views(r@) =~= head + done);
        }
        if path@.len() > 0 && path@[0] == '/' {
        } else if path@.len() > 0 && path@[0] == '.' && (path@.len() == 1 || path@[1] == '/') {
        } else {
            assert(head + kept_parts(path@) =~= kept_parts(path@));
        }
    }
    r
}

/// A path whose components are the same on every platform: it holds no `\` and no `:`, so it
/// has no Windows prefix and `/` is its one separator, and it does not begin with `//`.
pub open spec fn has_portable_components(p: Seq<char>) -> bool {
    &&& forall|i: int| 0 <= i < p.len() ==> #[trigger] p[i] != '\\' && p[i] != ':'
    &&& !(p.len() >= 2 && p[0] == '/' && p[1] == '/')
}

/// `path` lies within `base` by whole components: the components of `base` begin those of
/// `path`.
pub open spec fn within(path: Seq<char>, base: Seq<char>) -> bool {
    components(base).is_prefix_of(components(path))
}

/// A path lies within itself.
pub proof fn lemma_within_itself(p: Seq<char>)
    ensures
        within(p, p),
{
    assert(components(p).subrange(0, components(p).len() as int) =~= components(p));
}

/// `Path::starts_with`: whether the components of `base` begin those of `path`. What a
/// component is depends on the platform; what holds on every platform, and is stated: a path
/// starts with itself; and for two paths whose components are the same on every platform, the
/// result compares their `components`.
#[verifier::external_body]
pub(crate) fn path_starts_with(path: &str, base: &str) -> (r: bool)
    ensures
        path@ == base@ ==> r,
        has_portable_components(path@) && has_portable_components(base@) ==> r == within(path@, base@),
{
    Path::new(path).starts_with(base)
}

/// Conversions of a path that can fail.
pub trait PathExt {
    /// The characters of the path.
    spec fn path_chars(&self) -> Seq<char>;

    /// The parent directory, or `InvalidPath` when the path has none.
    fn try_parent(&self) -> (r: Result<String, Error>)
        ensures
            self.path_chars().len() == 0 ==> r == Err::<String, Error>(Error::InvalidPath),
            self.path_chars() == seq!['/'] ==> r == Err::<String, Error>(Error::InvalidPath),
            has_plain_file_name(self.path_chars()) ==> r is Ok,
            is_plain_path(self.path_chars()) ==> r is Ok && r->Ok_0@ == parent_of(self.path_chars()),
            r is Ok ==> r->Ok_0@.len() <= self.path_chars().len()
                && self.path_chars().subrange(0, r->Ok_0@.len() as int) == r->Ok_0@,
            r is Err ==> r == Err::<String, Error>(Error::InvalidPath);

    /// The path as text. A path held as a string is always valid text.
    fn try_str(&self) -> (r: Result<&str, Error>)
        ensures
            r is Ok && r->Ok_0@ == self.path_chars();

    /// The path as an owned string.
    fn try_string(&self) -> (r: Result<String, Error>)
        ensures
            r is Ok && r->Ok_0@ == self.path_chars();
}

impl PathExt for String {
    open spec fn path_chars(&self) -> Seq<char> {
        self@
    }

    fn try_parent(&self) -> (r: Result<String, Error>) {
        match path_parent(self.as_str()) {
            Some(parent) => Ok(parent),
            None => Err(Error::InvalidPath),
        }
    }

    fn try_str(&self) -> (r: Result<&str, Error>) {
        Ok(self.as_str())
    }

    fn try_string(&self) -> (r: Result<String, Error>) {
        Ok(self.clone())
    }
}

/// The directories of the application that the library derives its paths from.
#[derive(Clone, Debug)]
pub struct AppDirs {
    /// The application's cache directory.
    pub app_cache_dir: String,
}

/// The name of the directory of extracted covers.
pub open spec fn covers_name() -> Seq<char> {
    seq!['c', 'o', 'v', 'e', 'r', 's']
}

/// `p` is the path of the extracted cover of the book `id` in the cache directory `cache`: it
/// ends with the id in decimal; and, for a cache directory without `?`, it is the id pushed onto
/// `covers` pushed onto the cache directory.
pub open spec fn is_cover_path(cache: Seq<char>, id: int, p: Seq<char>) -> bool {
    &&& has_suffix(p, signed_decimal(id))
    &&& !cache.contains('?') ==> exists|d: Seq<char>| #[trigger] join_of(cache, covers_name(), d)
        && join_of(d, signed_decimal(id), p)
}

/// The name of the cache directory of development builds.
pub open spec fn dev_cache_name() -> Seq<char> {
    seq!['d', 'e', 'v', '-', 'c', 'a', 'c', 'h', 'e']
}

/// The name of the directory of generated sample books.
pub open spec fn mocks_name() -> Seq<char> {
    seq!['m', 'o', 'c', 'k', 's']
}

/// Paths inside the application's directories. When the cache directory holds no `?`, each is
/// the cache directory with the named components pushed onto it.
pub trait PathResolverExt {
    /// The application's cache directory.
    spec fn cache_dir(&self) -> Seq<char>;

    /// The path of the extracted cover of a book: in the cover directory, named by the book's id.
    fn cover(&self, book_id: i32) -> (p: String)
        ensures
            has_suffix(p@, signed_decimal(book_id as int)),
            !self.cache_dir().contains('?') ==> exists|d: Seq<char>| #[trigger] join_of(self.cache_dir(), covers_name(), d)
                && join_of(d, signed_decimal(book_id as int), p@),
    ;

    /// The directory of extracted covers: `covers` in the cache directory.
    fn cover_dir(&self) -> (p: String)
        ensures
            has_suffix(p@, covers_name()),
            !self.cache_dir().contains('?') ==> join_of(self.cache_dir(), covers_name(), p@),
    ;

    /// The cache directory of development builds: `dev-cache` in the cache directory.
    fn dev_cache_dir(&self) -> (p: String)
        ensures
            has_suffix(p@, dev_cache_name()),
            !self.cache_dir().contains('?') ==> join_of(self.cache_dir(), dev_cache_name(), p@),
    ;

    /// The directory of generated sample books: `mocks` in the development cache directory.
    fn mocks_dir(&self) -> (p: String)
        ensures
            has_suffix(p@, mocks_name()),
            !self.cache_dir().contains('?') ==> exists|d: Seq<char>| #[trigger] join_of(self.cache_dir(), dev_cache_name(), d)
                && join_of(d, mocks_name(), p@),
    ;
}

/// A path joined from texts without `?` holds no `?`.
proof fn lemma_join_keeps_no_question_mark(base: Seq<char>, component: Seq<char>, r: Seq<char>)
    requires
        join_of(base, component, r),
        !base.contains('?'),
        !component.contains('?'),
    ensures
        !r.contains('?'),
{
    broadcast use vstd::seq_lib::group_seq_properties;
}

proof fn lemma_decimal_plain(n: nat)
    ensures
        is_plain_component(decimal(n)),
    decreases n,
{
    if n >= 10 {
        lemma_decimal_plain(n / 10);
        let d = decimal(n);
        assert forall|i: int| 0 <= i < d.len() implies is_plain_component_char(#[trigger] d[i]) by {
            if i < d.len() - 1 {
                assert(d[i] == decimal(n / 10)[i]);
            }
        }
    }
}

proof fn lemma_signed_decimal_plain(i: int)
    ensures
        is_plain_component(signed_decimal(i)),
{
    if i < 0 {
        lemma_decimal_plain((-i) as nat);
        let d = signed_decimal(i);
        assert forall|k: int| 0 <= k < d.len() implies is_plain_component_char(#[trigger] d[k]) by {
            if k > 0 {
                assert(d[k] == decimal((-i) as nat)[k - 1]);
            }
        }
    } else {
        lemma_decimal_plain(i as nat);
    }
}

/// The character at `k` of `r`, where `r` is `component` joined onto `base`, tells which
/// separator the join put there, if any.
proof fn lemma_join_at(base: Seq<char>, component: Seq<char>, r: Seq<char>)
    requires
        join_of(base, component, r),
        component.len() > 0,
        component[0] != '/' && component[0] != '\\',
    ensures
        r.len() > base.len(),
        has_prefix(r, base),
        r[base.len() as int] == component[0] ==> r == base + component,
        r[base.len() as int] == '/' ==> r == base + seq!['/'] + component,
        r[base.len() as int] == '\\' ==> r == base + seq!['\\'] + component,
        r[base.len() as int] == component[0] || r[base.len() as int] == '/' || r[base.len() as int] == '\\',
{
    assert(r.subrange(0, base.len() as int) =~= base);
}

/// Two components joined onto the same base give the same path only when they are the same,
/// provided neither begins with a separator.
proof fn lemma_join_injective(base: Seq<char>, c1: Seq<char>, c2: Seq<char>, r: Seq<char>)
    requires
        join_of(base, c1, r),
        join_of(base, c2, r),
        c1.len() > 0 && c1[0] != '/' && c1[0] != '\\',
        c2.len() > 0 && c2[0] != '/' && c2[0] != '\\',
    ensures
        c1 == c2,
{
    lemma_join_at(base, c1, r);
    lemma_join_at(base, c2, r);
    let k = base.len() as int;
    if r[k] == c1[0] {
        assert(r == base + c1);
        assert(r[k] != '/' && r[k] != '\\');
        assert(r == base + c2);
        assert(c1 =~= r.subrange(k, r.len() as int));
        assert(c2 =~= r.subrange(k, r.len() as int));
    } else if r[k] == '/' {
        assert(r == base + seq!['/'] + c1);
        assert(r == base + seq!['/'] + c2);
        assert(c1 =~= r.subrange(k + 1, r.len() as int));
        assert(c2 =~= r.subrange(k + 1, r.len() as int));
    } else {
        assert(r == base + seq!['\\'] + c1);
        assert(r == base + seq!['\\'] + c2);
        assert(c1 =~= r.subrange(k + 1, r.len() as int));
        assert(c2 =~= r.subrange(k + 1, r.len() as int));
    }
}

/// Paths joined onto prefixes of the same path: when `d1` and `d2` are each `covers` joined
/// onto `cache`, and both begin `p`, they are the same.
proof fn lemma_covers_dir_unique(cache: Seq<char>, d1: Seq<char>, d2: Seq<char>, p: Seq<char>)
    requires
        join_of(cache, covers_name(), d1),
        join_of(cache, covers_name(), d2),
        has_prefix(p, d1),
        has_prefix(p, d2),
    ensures
        d1 == d2,
{
    lemma_join_at(cache, covers_name(), d1);
    lemma_join_at(cache, covers_name(), d2);
    let k = cache.len() as int;
    assert(d1[k] == p[k]);
    assert(d2[k] == p[k]);
    assert(covers_name()[0] == 'c');
}

proof fn lemma_signed_decimal_injective(a: int, b: int)
    requires
        signed_decimal(a) == signed_decimal(b),
    ensures
        a == b,
{
    if a < 0 && b < 0 {
        assert(decimal((-a) as nat) =~= signed_decimal(a).subrange(1, signed_decimal(a).len() as int));
        assert(decimal((-b) as nat) =~= signed_decimal(b).subrange(1, signed_decimal(b).len() as int));
        lemma_decimal_injective((-a) as nat, (-b) as nat);
    } else if a < 0 {
        lemma_decimal_digits(b as nat);
        assert((seq!['-'] + decimal((-a) as nat))[0] == '-');
        assert(is_ascii_digit(decimal(b as nat)[0]));
        assert(signed_decimal(b)[0] == signed_decimal(a)[0]);
    } else if b < 0 {
        lemma_decimal_digits(a as nat);
        assert((seq!['-'] + decimal((-b) as nat))[0] == '-');
        assert(is_ascii_digit(decimal(a as nat)[0]));
        assert(signed_decimal(b)[0] == signed_decimal(a)[0]);
    } else {
        lemma_decimal_injective(a as nat, b as nat);
    }
}

/// Distinct books have distinct cover paths: in a cache directory without `?`, one path is
/// the cover path of one book id at most.
pub proof fn law_cover_paths_differ(cache: Seq<char>, a: int, b: int, p: Seq<char>)
    requires
        !cache.contains('?'),
        is_cover_path(cache, a, p),
        is_cover_path(cache, b, p),
    ensures
        a == b,
{
    let d1 = choose|d: Seq<char>| #[trigger] join_of(cache, covers_name(), d) && join_of(d, signed_decimal(a), p);
    let d2 = choose|d: Seq<char>| #[trigger] join_of(cache, covers_name(), d) && join_of(d, signed_decimal(b), p);
    lemma_signed_decimal_plain(a);
    lemma_signed_decimal_plain(b);
    assert(is_plain_component_char(signed_decimal(a)[0]) && is_plain_component_char(signed_decimal(b)[0]));
    lemma_join_at(d1, signed_decimal(a), p);
    lemma_join_at(d2, signed_decimal(b), p);
    lemma_covers_dir_unique(cache, d1, d2, p);
    lemma_join_injective(d1, signed_decimal(a), signed_decimal(b), p);
    lemma_signed_decimal_injective(a, b);
}

impl PathResolverExt for AppDirs {
    open spec fn cache_dir(&self) -> Seq<char> {
        self.app_cache_dir@
    }

    fn cover(&self, book_id: i32) -> (p: String) {
        let dir = self.cover_dir();
        let name = i32_to_decimal(book_id);
        proof {
            lemma_signed_decimal_plain(book_id as int);
            if !self.cache_dir().contains('?') {
                assert(!covers_name().contains('?')) by {
                    assert forall|i: int| 0 <= i < covers_name().len() implies covers_name()[i] != '?' by {}
                }
                lemma_join_keeps_no_question_mark(self.cache_dir(), covers_name(), dir@);
            }
        }
        path_join(dir.as_str(), name.as_str())
    }

    fn cover_dir(&self) -> (p: String) {
        let name = owned("covers");
        proof {
            reveal_strlit("covers");
            assert(name@ =~= covers_name());
        }
        path_join(self.app_cache_dir.as_str(), name.as_str())
    }

    fn dev_cache_dir(&self) -> (p: String) {
        let name = owned("dev-cache");
        proof {
            reveal_strlit("dev-cache");
            assert(name@ =~= dev_cache_name());
        }
        path_join(self.app_cache_dir.as_str(), name.as_str())
    }

    fn mocks_dir(&self) -> (p: String) {
        let dir = self.dev_cache_dir();
        let name = owned("mocks");
        proof {
            reveal_strlit("mocks");
            assert(name@ =~= mocks_name());
            if !self.cache_dir().contains('?') {
                assert(!dev_cache_name().contains('?')) by {
                    assert forall|i: int| 0 <= i < dev_cache_name().len() implies dev_cache_name()[i] != '?' by {}
                }
                lemma_join_keeps_no_question_mark(self.cache_dir(), dev_cache_name(), dir@);
            }
        }
        path_join(dir.as_str(), name.as_str())
    }
}

/// The title of a book: by default, the stem of its file name.
#[derive(Clone, Debug)]
pub struct Title(pub String);

impl Title {
    /// A title with the given text.
    pub fn new(title: &str) -> (t: Title)
        ensures
            t.0@ == title@,
    {
        Title(owned(title))
    }

    /// The title of the book at `path`: the stem of its file name, or `InvalidBookTitle`
    /// when the path has none.
    pub fn try_from_path(path: &str) -> (r: Result<Title, Error>)
        ensures
            path@.len() == 0 ==> r == Err::<Title, Error>(Error::InvalidBookTitle),
            has_plain_file_name(path@) ==> r is Ok && r->Ok_0.0@ == stem_of(file_name_of(path@)),
            r is Ok ==> occurs_in(r->Ok_0.0@, path@),
            r is Err ==> r == Err::<Title, Error>(Error::InvalidBookTitle),
    {
        match path_file_stem(path) {
            Some(stem) => Ok(Title(stem)),
            None => Err(Error::InvalidBookTitle),
        }
    }

    /// The text of the title.
    pub fn as_str(&self) -> (s: &str)
        ensures
            s@ == self.0@,
    {
        self.0.as_str()
    }

    /// The text of the title, as an owned string.
    pub fn to_string(&self) -> (s: String)
        ensures
            s@ == self.0@,
    {
        self.0.clone()
    }
}

} // verus!
