//! Which file names are books and which are pages, by case-insensitive glob patterns (`globset`).

use crate::natural::views;
use crate::text::owned;
use globset::{GlobBuilder, GlobSetBuilder};
use vstd::prelude::*;

verus! {

/// An ASCII letter or digit.
pub open spec fn is_ascii_alphanumeric(c: char) -> bool {
    ('a' <= c && c <= 'z') || ('A' <= c && c <= 'Z') || ('0' <= c && c <= '9')
}

/// A glob of the form `*.ext`, where `ext` is made of ASCII letters and digits.
pub open spec fn is_extension_glob(p: Seq<char>) -> bool {
    &&& p.len() >= 3
    &&& p[0] == '*'
    &&& p[1] == '.'
    &&& forall|i: int| 2 <= i < p.len() ==> is_ascii_alphanumeric(#[trigger] p[i])
}

/// The character with an ASCII capital letter taken to its small letter; any other character
/// as it is.
pub open spec fn ascii_folded(c: char) -> int {
    if 'A' <= c && c <= 'Z' {
        c as int + 32
    } else {
        c as int
    }
}

/// Two characters are the same, ignoring ASCII case where `case_insensitive` holds.
pub open spec fn same_char(a: char, b: char, case_insensitive: bool) -> bool {
    if case_insensitive {
        ascii_folded(a) == ascii_folded(b)
    } else {
        a == b
    }
}

/// The path ends with the glob's text after its `*`, that is, with `.` and the extension.
pub open spec fn glob_matches(glob: Seq<char>, case_insensitive: bool, path: Seq<char>) -> bool {
    let tail = glob.skip(1);
    &&& tail.len() <= path.len()
    &&& forall|i: int|
        0 <= i < tail.len() ==> same_char(
            #[trigger] path[path.len() - tail.len() + i],
            tail[i],
            case_insensitive,
        )
}

/// Some glob of the set matches the path.
pub open spec fn glob_set_matches(globs: Seq<Seq<char>>, case_insensitive: bool, path: Seq<char>) -> bool {
    exists|i: int| 0 <= i < globs.len() && glob_matches(#[trigger] globs[i], case_insensitive, path)
}

/// Builds a `globset::GlobSet` from the globs, each through `globset::GlobBuilder` with the given
/// case sensitivity, and asks `GlobSet::is_match` about the path. A set matches a path when one
/// of its globs does. A glob `*.ext` is parsed into `*` and literal characters, so building
/// cannot fail; its regular expression is `(?-u)^.*\.ext$`, with `(?i)` after `(?-u)` where
/// the glob ignores case, and with `.` matching every byte. It matches the path's bytes
/// exactly when they end with `.ext`, where `(?i)` without Unicode folds ASCII letters only.
/// The extension being ASCII, that is when the path's characters end with `.ext`. Separators
/// play no part. Building the set compiles the globs' expressions together under a size limit
/// on the automaton (10 MiB), past which `build` fails; a few globs of a few characters each,
/// as the library uses, stay far below it.
#[verifier::external_body]
fn glob_set_is_match(patterns: &Vec<String>, case_insensitive: bool, path: &str) -> (r: bool)
    requires
        patterns@.len() <= 6,
        forall|i: int| 0 <= i < patterns@.len() ==> is_extension_glob(#[trigger] patterns@[i]@),
        forall|i: int| 0 <= i < patterns@.len() ==> #[trigger] patterns@[i]@.len() <= 6,
    ensures
        r == glob_set_matches(views(patterns@), case_insensitive, path@),
{
    let mut builder = GlobSetBuilder::new();
    for pattern in patterns {
        builder.add(GlobBuilder::new(pattern).case_insensitive(case_insensitive).build().unwrap());
    }
    builder.build().unwrap().is_match(path)
}

/// The globs of book files.
pub open spec fn book_globs() -> Seq<Seq<char>> {
    seq!["*.cbr"@, "*.cbz"@, "*.zip"@]
}

/// The globs of page images inside a book.
pub open spec fn book_page_globs() -> Seq<Seq<char>> {
    seq!["*.bmp"@, "*.gif"@, "*.jpg"@, "*.jpeg"@, "*.png"@, "*.webp"@]
}

/// A path names a book file: `.cbr`, `.cbz` or `.zip`, in any case.
pub open spec fn is_book(path: Seq<char>) -> bool {
    glob_set_matches(book_globs(), true, path)
}

/// A name inside a book names a page image: `.bmp`, `.gif`, `.jpg`, `.jpeg`, `.png` or `.webp`,
/// in any case.
pub open spec fn is_book_page(name: Seq<char>) -> bool {
    glob_set_matches(book_page_globs(), true, name)
}

fn book_patterns() -> (v: Vec<String>)
    ensures
        views(v@) == book_globs(),
        forall|i: int| 0 <= i < v@.len() ==> is_extension_glob(#[trigger] v@[i]@),
        v@.len() <= 6,
        forall|i: int| 0 <= i < v@.len() ==> #[trigger] v@[i]@.len() <= 6,
{
    proof {
        reveal_strlit("*.cbr");
        reveal_strlit("*.cbz");
        reveal_strlit("*.zip");
    }
    let v = vec![owned("*.cbr"), owned("*.cbz"), owned("*.zip")];
    assert(views(v@) =~= book_globs());
    v
}

fn book_page_patterns() -> (v: Vec<String>)
    ensures
        views(v@) == book_page_globs(),
        forall|i: int| 0 <= i < v@.len() ==> is_extension_glob(#[trigger] v@[i]@),
        v@.len() <= 6,
        forall|i: int| 0 <= i < v@.len() ==> #[trigger] v@[i]@.len() <= 6,
{
    proof {
        reveal_strlit("*.bmp");
        reveal_strlit("*.gif");
        reveal_strlit("*.jpg");
        reveal_strlit("*.jpeg");
        reveal_strlit("*.png");
        reveal_strlit("*.webp");
    }
    let v = vec![
        owned("*.bmp"),
        owned("*.gif"),
        owned("*.jpg"),
        owned("*.jpeg"),
        owned("*.png"),
        owned("*.webp"),
    ];
    assert(views(v@) =~= book_page_globs());
    v
}

/// Whether the path names a book file.
pub fn is_book_path(path: &str) -> (r: bool)
    ensures
        r == is_book(path@),
{
    let patterns = book_patterns();
    glob_set_is_match(&patterns, true, path)
}

/// Whether the name inside a book names a page image.
pub fn is_book_page_name(name: &str) -> (r: bool)
    ensures
        r == is_book_page(name@),
{
    let patterns = book_page_patterns();
    glob_set_is_match(&patterns, true, name)
}

} // verus!
