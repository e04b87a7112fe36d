//! Sample books for development builds: the file names, page sizes, colors and encoded pages of
//! a generated book. Writing the archive happens where files are written.

use crate::error::Error;
use crate::image::Orientation;
use image::codecs::webp::WebPEncoder;
use image::RgbImage;
use crate::paths::{is_plain_component, is_plain_component_char, join_of, path_join};
use crate::tempfile::{is_hyphenated_uuid, now_v7_text};
use crate::text::has_suffix;
use crate::text::concat;
use rand::Rng;
use uuid::Uuid;
use vstd::prelude::*;

verus! {

/// `Uuid::new_v4`, as text. Which UUID comes back depends on chance; what is stated holds of
/// every one: `Display` writes it hyphenated, in lowercase hexadecimal, and its version digit,
/// the first of the third group, is `4`.
#[verifier::external_body]
fn new_v4_text() -> (r: String)
    ensures
        is_hyphenated_uuid(r@),
        r@[14] == '4',
{
    Uuid::new_v4().to_string()
}

/// A color, by its red, green and blue parts.
#[derive(Clone, Copy, Debug, PartialEq, Eq, Structural)]
pub struct Rgb {
    pub red: u8,
    pub green: u8,
    pub blue: u8,
}

/// A color of three bytes from the thread's random generator (`Rng::gen`); any value may come
/// back.
#[verifier::external_body]
fn random_rgb() -> (r: Rgb) {
    let mut rng = rand::thread_rng();
    Rgb { red: rng.gen(), green: rng.gen(), blue: rng.gen() }
}

/// The lossless WebP encoding (`WebPEncoder::new_lossless`) of an image of `width` by `height`
/// pixels, every one of the color `red`, `green`, `blue`; `None` when encoding fails.
pub uninterp spec fn solid_webp(width: u32, height: u32, red: u8, green: u8, blue: u8) -> Option<Seq<u8>>;

/// `RgbImage::from_pixel`, then `write_with_encoder` with `WebPEncoder::new_lossless` into
/// memory. The encoding depends on its arguments alone, so the result is `solid_webp` of them.
/// The bounds are WebP's own, past which the encoder refuses the image; within them the
/// image buffer's length fits a `usize`, so `from_pixel` does not panic.
#[verifier::external_body]
fn encode_solid_webp(width: u32, height: u32, color: Rgb) -> (r: Option<Vec<u8>>)
    requires
        0 < width <= 16384,
        0 < height <= 16384,
    ensures
        r is Some <==> solid_webp(width, height, color.red, color.green, color.blue) is Some,
        r is Some ==> r->0@ == solid_webp(width, height, color.red, color.green, color.blue)->0,
{
    let image = RgbImage::from_pixel(width, height, image::Rgb([color.red, color.green, color.blue]));
    let mut out = Vec::new();
    image.write_with_encoder(WebPEncoder::new_lossless(&mut out)).ok()?;
    Some(out)
}

/// A UUID followed by `suffix`.
pub open spec fn uuid_named(s: Seq<char>, suffix: Seq<char>) -> bool {
    &&& s.len() == 36 + suffix.len()
    &&& is_hyphenated_uuid(s.subrange(0, 36))
    &&& s.subrange(36, s.len() as int) == suffix
}

/// A page of a sample book: its entry name, the one color that fills it, and the page encoded
/// as lossless WebP.
#[derive(Clone, Debug, PartialEq, Eq)]
pub struct MockPage {
    pub name: String,
    pub color: Rgb,
    pub image: Vec<u8>,
}

/// The page is the lossless WebP of an image of `width` by `height` filled with its color.
pub open spec fn is_solid_page(page: MockPage, width: u32, height: u32) -> bool {
    &&& solid_webp(width, height, page.color.red, page.color.green, page.color.blue) is Some
    &&& page.image@ == solid_webp(width, height, page.color.red, page.color.green, page.color.blue)->0
}

/// What a generated sample book holds.
#[derive(Clone, Debug, PartialEq, Eq)]
pub struct MockBook {
    /// The archive's file name.
    pub file_name: String,
    /// Where the archive is written: the file name pushed onto the directory of sample books.
    pub path: String,
    /// The width and height of every page.
    pub width: u32,
    pub height: u32,
    pub pages: Vec<MockPage>,
}

/// How many sample books the developer menu adds at once, and how many pages each has.
pub const MOCK_BOOKS: u8 = 15;
pub const MOCK_PAGES: usize = 20;

/// A sample book of `size` pages in the given orientation, to be written in the directory `dir`:
/// a random UUID of version 4 followed by `.zip` as its file name, pushed onto `dir` as its path; each page named by a time-ordered UUID followed by `.webp`,
/// filled with one random color, sized as the orientation says, and encoded as lossless WebP.
/// `Image` when a page cannot be encoded: whether a page encodes is left to the encoder, and
/// its color to chance, so a book of no pages is the one that always succeeds.
pub fn mock_book(dir: &str, orientation: Orientation, size: usize) -> (r: Result<MockBook, Error>)
    ensures
        size == 0 ==> r is Ok,
        r is Err ==> r == Err::<MockBook, Error>(Error::Image),
        r is Err ==> exists|c: Rgb| #[trigger] solid_webp(
            orientation.dimensions_of().0,
            orientation.dimensions_of().1,
            c.red,
            c.green,
            c.blue,
        ) is None,
        r is Ok ==> {
            let b = r->Ok_0;
            &&& uuid_named(b.file_name@, ".zip"@)
            &&& has_suffix(b.path@, b.file_name@)
            &&& !dir@.contains('?') ==> join_of(dir@, b.file_name@, b.path@)
            &&& b.file_name@[14] == '4'
            &&& (b.width, b.height) == orientation.dimensions_of()
            &&& b.pages@.len() == size
            &&& forall|k: int| 0 <= k < size ==> uuid_named(#[trigger] b.pages@[k].name@, ".webp"@)
                && b.pages@[k].name@[14] == '7' && is_solid_page(b.pages@[k], b.width, b.height)
        },
{
    let id = new_v4_text();
    let file_name = concat(id.as_str(), ".zip");
    proof {
        assert(file_name@.subrange(0, 36) =~= id@);
        assert(file_name@.subrange(36, file_name@.len() as int) =~= ".zip"@);
        reveal_strlit(".zip");
        let s = file_name@;
        assert(s[0] == s.subrange(0, 36)[0]);
        assert forall|i: int| 0 <= i < s.len() implies is_plain_component_char(#[trigger] s[i]) by {
            if i < 36 {
                assert(s[i] == s.subrange(0, 36)[i]);
            } else {
                assert(s[i] == s.subrange(36, 40)[i - 36]);
            }
        }
        assert(is_plain_component(s));
    }
    let path = path_join(dir, file_name.as_str());
    let (width, height) = orientation.dimensions();
    let mut pages: Vec<MockPage> = Vec::new();
    let mut i: usize = 0;
    while i < size
        invariant
            i <= size,
            pages@.len() == i,
            (width, height) == orientation.dimensions_of(),
            forall|k: int| 0 <= k < i ==> uuid_named(#[trigger] pages@[k].name@, ".webp"@) && pages@[k].name@[14] == '7'
                && is_solid_page(pages@[k], width, height),
        decreases size - i,
    {
        let page_id = now_v7_text();
        let name = concat(page_id.as_str(), ".webp");
        proof {
            assert(name@.subrange(0, 36) =~= page_id@);
            assert(name@.subrange(36, name@.len() as int) =~= ".webp"@);
        }
        let color = random_rgb();
        let image = match encode_solid_webp(width, height, color) {
            Some(image) => image,
            None => {
                proof {
                    assert(solid_webp(width, height, color.red, color.green, color.blue) is None);
                    assert(solid_webp(
                        orientation.dimensions_of().0,
                        orientation.dimensions_of().1,
                        color.red,
                        color.green,
                        color.blue,
                    ) is None);
                }
                return Err(Error::Image);
            },
        };
        pages.push(MockPage { name, color, image });
        i = i + 1;
    }
    Ok(MockBook { file_name, path, width, height, pages })
}

} // verus!
