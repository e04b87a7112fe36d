//! The metadata that Kotori keeps inside each book file, and its builder.

use crate::error::Error;
use crate::model::Book;
use crate::paths::{file_name_of, has_plain_file_name, occurs_in, stem_of, Title};
use crate::text::{concat, decimal, is_ascii_digit, owned, u64_to_decimal};
use vstd::prelude::*;

verus! {

/// A version of Kotori, by the parts that `semver::Version` holds: three numbers, then the
/// pre-release and build texts, empty when absent.
#[derive(Clone, Debug, PartialEq, Eq)]
pub struct Version {
    pub major: u64,
    pub minor: u64,
    pub patch: u64,
    pub pre: String,
    pub build: String,
}

impl Version {
    /// The parts of the version, as plain values.
    pub open spec fn parts(&self) -> (u64, u64, u64, Seq<char>, Seq<char>) {
        (self.major, self.minor, self.patch, self.pre@, self.build@)
    }

    /// The version as text, as `semver::Version`'s `Display` writes it: the three numbers
    /// joined by `.`, then `-` and the pre-release, then `+` and the build, each when present.
    pub open spec fn text_of(&self) -> Seq<char> {
        decimal(self.major as nat) + seq!['.'] + decimal(self.minor as nat) + seq!['.'] + decimal(
            self.patch as nat,
        ) + (if self.pre@.len() > 0 {
            seq!['-'] + self.pre@
        } else {
            Seq::empty()
        }) + (if self.build@.len() > 0 {
            seq!['+'] + self.build@
        } else {
            Seq::empty()
        })
    }

    /// The version as text.
    pub fn text(&self) -> (r: String)
        ensures
            r@ == self.text_of(),
    {
        proof {
            reveal_strlit(".");
            reveal_strlit("-");
            reveal_strlit("+");
            assert("."@ =~= seq!['.']);
            assert("-"@ =~= seq!['-']);
            assert("+"@ =~= seq!['+']);
        }
        let major = u64_to_decimal(self.major);
        let minor = u64_to_decimal(self.minor);
        let patch = u64_to_decimal(self.patch);
        let a = concat(major.as_str(), ".");
        let b = concat(a.as_str(), minor.as_str());
        let c = concat(b.as_str(), ".");
        let mut r = concat(c.as_str(), patch.as_str());
        let ghost numbers = r@;
        if self.pre.as_str().unicode_len() > 0 {
            let d = concat(r.as_str(), "-");
            r = concat(d.as_str(), self.pre.as_str());
        }
        let ghost with_pre = r@;
        if self.build.as_str().unicode_len() > 0 {
            let e = concat(r.as_str(), "+");
            r = concat(e.as_str(), self.build.as_str());
        }
        proof {
            let pre_part = if self.pre@.len() > 0 { seq!['-'] + self.pre@ } else { Seq::<char>::empty() };
            let build_part = if self.build@.len() > 0 { seq!['+'] + self.build@ } else { Seq::<char>::empty() };
            assert(with_pre =~= numbers + pre_part);
            assert(r@ =~= with_pre + build_part);
            assert(r@ =~= self.text_of());
        }
        r
    }
}

/// The version of Kotori that writes the metadata.
pub const VERSION: &'static str = "0.1.0";

/// A numeric part of a version: one to nineteen digits, without a leading zero unless it is `0`.
pub open spec fn is_numeric_part(s: Seq<char>) -> bool {
    &&& 1 <= s.len() <= 19
    &&& forall|i: int| 0 <= i < s.len() ==> is_ascii_digit(#[trigger] s[i])
    &&& s.len() > 1 ==> s[0] != '0'
}

/// The text is three numeric parts with dots at `i` and `j` between them.
pub open spec fn plain_version_split(text: Seq<char>, i: int, j: int) -> bool {
    &&& 0 < i < j < text.len()
    &&& text[i] == '.'
    &&& text[j] == '.'
    &&& is_numeric_part(text.subrange(0, i))
    &&& is_numeric_part(text.subrange(i + 1, j))
    &&& is_numeric_part(text.subrange(j + 1, text.len() as int))
}

/// A version made of three numeric parts separated by dots, such as `1.2.3`.
pub open spec fn is_plain_version(text: Seq<char>) -> bool {
    exists|i: int, j: int| #[trigger] plain_version_split(text, i, j)
}

/// The number that a run of decimal digits writes.
pub open spec fn digits_value(s: Seq<char>) -> nat
    decreases s.len(),
{
    if s.len() == 0 {
        0
    } else {
        digits_value(s.drop_last()) * 10 + (s.last() as nat - '0' as nat) as nat
    }
}

/// The parts of the version that `semver::Version::parse` reads from a text, if it reads one:
/// the three numbers, the pre-release text and the build text.
pub uninterp spec fn parsed_version(text: Seq<char>) -> Option<(u64, u64, u64, Seq<char>, Seq<char>)>;

/// `semver::Version::parse`, its result taken apart into plain values (`Prerelease::as_str`,
/// `BuildMetadata::as_str`). Its result is `parsed_version` of the text: parsing depends on the
/// text alone. A version of three numeric parts, each without a leading zero and short enough
/// not to overflow a `u64`, parses to those numbers, with no pre-release and no build: its
/// source reads the three digit runs as numbers and the two dots and, finding nothing after
/// them, leaves the pre-release and build empty.
#[verifier::external_body]
fn parse_version(text: &str) -> (r: Option<Version>)
    ensures
        r is Some <==> parsed_version(text@) is Some,
        r is Some ==> r->0.parts() == parsed_version(text@)->0,
        forall|i: int, j: int| #[trigger] plain_version_split(text@, i, j) ==> r is Some && r->0.parts() == (
            digits_value(text@.subrange(0, i)) as u64,
            digits_value(text@.subrange(i + 1, j)) as u64,
            digits_value(text@.subrange(j + 1, text@.len() as int)) as u64,
            Seq::<char>::empty(),
            Seq::<char>::empty(),
        ),
{
    semver::Version::parse(text).ok().map(|v| Version {
        major: v.major,
        minor: v.minor,
        patch: v.patch,
        pre: v.pre.as_str().to_owned(),
        build: v.build.as_str().to_owned(),
    })
}

/// The version written in a text, as `semver` parses it: `None` when the text holds none. A
/// plain version of three numeric parts parses to those three numbers.
pub fn version_from_text(text: &str) -> (r: Option<Version>)
    ensures
        r is Some <==> parsed_version(text@) is Some,
        r is Some ==> r->0.parts() == parsed_version(text@)->0,
        forall|i: int, j: int| #[trigger] plain_version_split(text@, i, j) ==> r is Some && r->0.parts() == (
            digits_value(text@.subrange(0, i)) as u64,
            digits_value(text@.subrange(i + 1, j)) as u64,
            digits_value(text@.subrange(j + 1, text@.len() as int)) as u64,
            Seq::<char>::empty(),
            Seq::<char>::empty(),
        ),
{
    parse_version(text)
}

/// The parts of the version of Kotori that writes metadata: `0.1.0`.
pub open spec fn kotori_version() -> (u64, u64, u64, Seq<char>, Seq<char>) {
    (0u64, 1u64, 0u64, Seq::<char>::empty(), Seq::<char>::empty())
}

/// The metadata of a book.
#[derive(Debug)]
pub struct Metadata {
    pub title: Option<Title>,
    pub cover: Option<String>,
    pub rating: Option<u8>,
    pub read: Option<bool>,
    /// The Kotori version that wrote it.
    pub version: Option<Version>,
}

/// The metadata holds the book's title, cover, rating and read state, and a version.
pub open spec fn metadata_of_book(book: Book, m: Metadata) -> bool {
    &&& m.title is Some && (m.title->0).0@ == book.title@
    &&& m.cover is Some && m.cover->0@ == book.cover@
    &&& m.rating == Some(book.rating as u8)
    &&& m.read == Some(book.read)
    &&& m.version is Some
}

impl Metadata {
    /// A builder of metadata for the book at `path`.
    pub fn builder(path: &str) -> (b: Builder)
        ensures
            path@.len() == 0 ==> b.title is None,
            has_plain_file_name(path@) ==> b.title is Some && (b.title->0).0@ == stem_of(file_name_of(path@)),
            b.title is Some ==> occurs_in((b.title->0).0@, path@),
            b.cover is None,
            b.rating == 0,
            !b.read,
    {
        Builder::new(path)
    }

    /// The metadata that a book of the library is saved with: its title, cover, rating and
    /// read state. A rating that does not fit a `u8` gives `IntegerOutOfRange`.
    pub fn try_from_book(book: &Book) -> (r: Result<Metadata, Error>)
        ensures
            (0 <= book.rating <= 255) <==> r is Ok,
            r is Err ==> r == Err::<Metadata, Error>(Error::IntegerOutOfRange),
            r is Ok ==> metadata_of_book(*book, r->Ok_0),
            r is Ok ==> r->Ok_0.version is Some && (r->Ok_0.version->0).parts() == kotori_version(),
    {
        let title = Title::new(book.title.as_str());
        if book.rating < 0 || book.rating > 255 {
            return Err(Error::IntegerOutOfRange);
        }
        let rating = book.rating as u8;
        let metadata = Builder::new(book.path.as_str())
            .title(title)
            .cover(book.cover.as_str())
            .rating(rating)
            .read(book.read)
            .build();
        Ok(metadata)
    }
}

/// Collects the fields of a book's metadata.
#[derive(Debug)]
pub struct Builder {
    pub title: Option<Title>,
    pub cover: Option<String>,
    pub rating: u8,
    pub read: bool,
}

impl Builder {
    /// A builder with the title taken from the file name at `path`, when it has one, no cover,
    /// rating 0 and not read.
    pub fn new(path: &str) -> (b: Builder)
        ensures
            path@.len() == 0 ==> b.title is None,
            has_plain_file_name(path@) ==> b.title is Some && (b.title->0).0@ == stem_of(file_name_of(path@)),
            b.title is Some ==> occurs_in((b.title->0).0@, path@),
            b.cover is None,
            b.rating == 0,
            !b.read,
    {
        let title = match Title::try_from_path(path) {
            Ok(title) => Some(title),
            Err(_) => None,
        };
        Builder { title, rating: 0, cover: None, read: false }
    }

    /// Sets the cover page.
    pub fn cover(self, cover: &str) -> (b: Builder)
        ensures
            b.cover is Some && b.cover->0@ == cover@,
            b.title == self.title,
            b.rating == self.rating,
            b.read == self.read,
    {
        Builder { cover: Some(owned(cover)), ..self }
    }

    /// Sets the rating.
    pub fn rating(self, rating: u8) -> (b: Builder)
        ensures
            b.rating == rating,
            b.title == self.title,
            b.cover == self.cover,
            b.read == self.read,
    {
        Builder { rating, ..self }
    }

    /// Sets whether the book was read.
    pub fn read(self, read: bool) -> (b: Builder)
        ensures
            b.read == read,
            b.title == self.title,
            b.cover == self.cover,
            b.rating == self.rating,
    {
        Builder { read, ..self }
    }

    /// Sets the title.
    pub fn title(self, title: Title) -> (b: Builder)
        ensures
            b.title == Some(title),
            b.cover == self.cover,
            b.rating == self.rating,
            b.read == self.read,
    {
        Builder { title: Some(title), ..self }
    }

    /// The metadata: every field set, and the version of Kotori that writes it.
    pub fn build(self) -> (m: Metadata)
        ensures
            m.title == self.title,
            m.cover == self.cover,
            m.rating == Some(self.rating),
            m.read == Some(self.read),
            m.version is Some,
            (m.version->0).parts() == kotori_version(),
    {
        proof {
            reveal_strlit("0.1.0");
            let t = VERSION@;
            assert(t == "0.1.0"@);
            assert(t.len() == 5);
            assert(t[1] == '.' && t[3] == '.');
            assert(t.subrange(0, 1) =~= seq!['0']);
            assert(t.subrange(2, 3) =~= seq!['1']);
            assert(t.subrange(4, 5) =~= seq!['0']);
            assert(is_numeric_part(t.subrange(0, 1)) && is_numeric_part(t.subrange(2, 3)));
            assert(is_numeric_part(t.subrange(4, t.len() as int)));
            assert(plain_version_split(t, 1, 3));
            assert(seq!['0'].drop_last() =~= Seq::<char>::empty());
            assert(seq!['1'].drop_last() =~= Seq::<char>::empty());
            assert(digits_value(Seq::<char>::empty()) == 0);
            assert(seq!['0'].last() == '0' && seq!['1'].last() == '1');
            assert(digits_value(seq!['0']) == 0);
            assert(digits_value(seq!['1']) == 1);
        }
        let version = parse_version(VERSION);
        Metadata {
            title: self.title,
            cover: self.cover,
            rating: Some(self.rating),
            read: Some(self.read),
            version,
        }
    }
}

} // verus!
