//! Which image format a page is in (`image`), and the shapes of generated sample books.

use crate::error::Error;
use crate::paths::{extension_of, file_name_of, has_plain_file_name, occurs_in};
use crate::text::same_text;
use image::codecs::webp::WebPEncoder;
use image::{ImageFormat, ImageReader};
use std::io::Cursor;
use std::path::Path;
use vstd::prelude::*;

verus! {

/// The image formats that the `image` crate tells apart.
#[derive(Clone, Copy, Debug, PartialEq, Eq, Structural)]
pub enum ImageKind {
    Png,
    Jpeg,
    Gif,
    WebP,
    Pnm,
    Tiff,
    Tga,
    Dds,
    Bmp,
    Ico,
    Hdr,
    OpenExr,
    Farbfeld,
    Avif,
    Qoi,
    /// A format this library does not name.
    Other,
}

/// `bytes` hold `sig` from position `i` on.
pub open spec fn holds_at(bytes: Seq<u8>, i: int, sig: Seq<u8>) -> bool {
    i + sig.len() <= bytes.len() && bytes.subrange(i, i + sig.len()) == sig
}

/// The first file extension of the format that `image::guess_format` reads from the first
/// bytes of an image, if they name one: its table of magic bytes, tried in order, each format
/// reported by the first of its extensions (`ImageFormat::extensions_str`).
pub open spec fn guessed_extension(bytes: Seq<u8>) -> Option<Seq<char>> {
    if holds_at(bytes, 0, seq![137u8, 80, 78, 71, 13, 10, 26, 10]) {
        Some("png"@)
    } else if holds_at(bytes, 0, seq![255u8, 216, 255]) {
        Some("jpg"@)
    } else if holds_at(bytes, 0, seq![71u8, 73, 70, 56, 57, 97]) || holds_at(bytes, 0, seq![71u8, 73, 70, 56, 55, 97]) {
        Some("gif"@)
    } else if holds_at(bytes, 0, seq![82u8, 73, 70, 70]) && holds_at(bytes, 8, seq![87u8, 69, 66, 80]) {
        Some("webp"@)
    } else if holds_at(bytes, 0, seq![77u8, 77, 0, 42]) || holds_at(bytes, 0, seq![73u8, 73, 42, 0]) {
        Some("tiff"@)
    } else if holds_at(bytes, 0, seq![68u8, 68, 83, 32]) {
        Some("dds"@)
    } else if holds_at(bytes, 0, seq![66u8, 77]) {
        Some("bmp"@)
    } else if holds_at(bytes, 0, seq![0u8, 0, 1, 0]) {
        Some("ico"@)
    } else if holds_at(bytes, 0, seq![35u8, 63, 82, 65, 68, 73, 65, 78, 67, 69]) {
        Some("hdr"@)
    } else if holds_at(bytes, 0, seq![0u8, 0]) && holds_at(bytes, 4, seq![102u8, 116, 121, 112, 97, 118, 105, 102]) {
        Some("avif"@)
    } else if holds_at(bytes, 0, seq![118u8, 47, 49, 1]) {
        Some("exr"@)
    } else if holds_at(bytes, 0, seq![113u8, 111, 105, 102]) {
        Some("qoi"@)
    } else if bytes.len() >= 2 && bytes[0] == 80 && 49 <= bytes[1] <= 55 {
        Some("pbm"@)
    } else if holds_at(bytes, 0, seq![102u8, 97, 114, 98, 102, 101, 108, 100]) {
        Some("ff"@)
    } else {
        None
    }
}

/// `image::guess_format`, reported by the first of the format's extensions
/// (`ImageFormat::extensions_str`). Its source tries the table `MAGIC_BYTES` in order, a
/// signature with a mask matching where the masked bytes equal it: `guessed_extension` writes
/// the table out, the WebP and AVIF masks as the bytes they leave free.
#[verifier::external_body]
fn guess_format_extension(bytes: &[u8]) -> (r: Option<String>)
    ensures
        r is None <==> guessed_extension(bytes@) is None,
        r is Some ==> r->0@ == guessed_extension(bytes@)->0,
{
    image::guess_format(bytes).ok().map(|f| f.extensions_str()[0].to_owned())
}

/// ASCII lower case of a character; other characters are left as they are.
pub open spec fn ascii_lower(c: char) -> char {
    if 'A' <= c && c <= 'Z' {
        ((c as u32) + 32) as char
    } else {
        c
    }
}

/// ASCII lower case of a text.
pub open spec fn ascii_lowercase(s: Seq<char>) -> Seq<char> {
    s.map_values(|c: char| ascii_lower(c))
}

/// The first extension of the format that a file extension names, compared in ASCII lower
/// case, as `image::ImageFormat::from_extension` and `extensions_str` have it.
pub open spec fn canonical_extension_of(ext: Seq<char>) -> Option<Seq<char>> {
    let e = ascii_lowercase(ext);
    if e == "avif"@ || e == "png"@ || e == "gif"@ || e == "webp"@ || e == "tga"@ || e == "dds"@
        || e == "bmp"@ || e == "ico"@ || e == "hdr"@ || e == "exr"@ || e == "ff"@ || e == "qoi"@ {
        Some(e)
    } else if e == "jpg"@ || e == "jpeg"@ || e == "jfif"@ {
        Some("jpg"@)
    } else if e == "apng"@ {
        Some("png"@)
    } else if e == "tif"@ || e == "tiff"@ {
        Some("tiff"@)
    } else if e == "pbm"@ || e == "pam"@ || e == "ppm"@ || e == "pgm"@ || e == "pnm"@ {
        Some("pbm"@)
    } else {
        None
    }
}

/// `image::ImageFormat::from_extension`, reported by the first of the format's extensions. Its
/// source lower-cases the extension's ASCII letters and maps the result through a fixed table,
/// which `canonical_extension_of` writes out together with the table of `extensions_str`.
#[verifier::external_body]
fn canonical_extension(ext: &str) -> (r: Option<String>)
    ensures
        r is None <==> canonical_extension_of(ext@) is None,
        r is Some ==> r->0@ == canonical_extension_of(ext@)->0,
{
    ImageFormat::from_extension(ext).map(|f| f.extensions_str()[0].to_owned())
}

/// The format whose first extension is `ext`.
pub open spec fn kind_of_first_extension(ext: Seq<char>) -> ImageKind {
    if ext == "png"@ {
        ImageKind::Png
    } else if ext == "jpg"@ {
        ImageKind::Jpeg
    } else if ext == "gif"@ {
        ImageKind::Gif
    } else if ext == "webp"@ {
        ImageKind::WebP
    } else if ext == "pbm"@ {
        ImageKind::Pnm
    } else if ext == "tiff"@ {
        ImageKind::Tiff
    } else if ext == "tga"@ {
        ImageKind::Tga
    } else if ext == "dds"@ {
        ImageKind::Dds
    } else if ext == "bmp"@ {
        ImageKind::Bmp
    } else if ext == "ico"@ {
        ImageKind::Ico
    } else if ext == "hdr"@ {
        ImageKind::Hdr
    } else if ext == "exr"@ {
        ImageKind::OpenExr
    } else if ext == "ff"@ {
        ImageKind::Farbfeld
    } else if ext == "avif"@ {
        ImageKind::Avif
    } else if ext == "qoi"@ {
        ImageKind::Qoi
    } else {
        ImageKind::Other
    }
}

/// The format whose first extension is `ext`.
pub fn kind_from_first_extension(ext: &str) -> (k: ImageKind)
    ensures
        k == kind_of_first_extension(ext@),
{
    if same_text(ext, "png") {
        ImageKind::Png
    } else if same_text(ext, "jpg") {
        ImageKind::Jpeg
    } else if same_text(ext, "gif") {
        ImageKind::Gif
    } else if same_text(ext, "webp") {
        ImageKind::WebP
    } else if same_text(ext, "pbm") {
        ImageKind::Pnm
    } else if same_text(ext, "tiff") {
        ImageKind::Tiff
    } else if same_text(ext, "tga") {
        ImageKind::Tga
    } else if same_text(ext, "dds") {
        ImageKind::Dds
    } else if same_text(ext, "bmp") {
        ImageKind::Bmp
    } else if same_text(ext, "ico") {
        ImageKind::Ico
    } else if same_text(ext, "hdr") {
        ImageKind::Hdr
    } else if same_text(ext, "exr") {
        ImageKind::OpenExr
    } else if same_text(ext, "ff") {
        ImageKind::Farbfeld
    } else if same_text(ext, "avif") {
        ImageKind::Avif
    } else if same_text(ext, "qoi") {
        ImageKind::Qoi
    } else {
        ImageKind::Other
    }
}

/// `Path::extension`, as a string. Which part is the extension depends on the platform's
/// separators; what holds on every platform, and is stated: the empty path has none; an
/// extension is a part of the path; and for a path that ends with a plain file name, whose file
/// name is its last part after its last `/`, the extension is that name's, as `extension_of`
/// writes out what the documentation of `Path::extension` says.
#[verifier::external_body]
fn path_extension(path: &str) -> (r: Option<String>)
    ensures
        path@.len() == 0 ==> r is None,
        r is Some ==> occurs_in(r->0@, path@),
        has_plain_file_name(path@) ==> (r is Some <==> extension_of(file_name_of(path@)) is Some),
        has_plain_file_name(path@) && r is Some ==> r->0@ == extension_of(file_name_of(path@))->0,
{
    Path::new(path).extension().and_then(|e| e.to_str()).map(|e| e.to_owned())
}

/// The format that the image's bytes name, if they name one.
pub open spec fn kind_of_bytes(bytes: Seq<u8>) -> Option<ImageKind> {
    match guessed_extension(bytes) {
        Some(ext) => Some(kind_of_first_extension(ext)),
        None => None,
    }
}

/// The format that a file extension names, if it names one.
pub open spec fn kind_of_extension(ext: Seq<char>) -> Option<ImageKind> {
    match canonical_extension_of(ext) {
        Some(first) => Some(kind_of_first_extension(first)),
        None => None,
    }
}

/// The format that the extension of a page's file name names, for a path that ends with a
/// plain file name; `UnknownImageFormat` when it has no extension or the extension names none.
pub open spec fn format_of_file_name(path: Seq<char>) -> Result<ImageKind, Error> {
    match extension_of(file_name_of(path)) {
        Some(e) => match kind_of_extension(e) {
            Some(k) => Ok(k),
            None => Err(Error::UnknownImageFormat),
        },
        None => Err(Error::UnknownImageFormat),
    }
}

/// The format of a page: the one its bytes name, or else the one its file extension names;
/// `UnknownImageFormat` when neither names one.
pub fn guess_image_format(path: &str, buffer: &[u8]) -> (r: Result<ImageKind, Error>)
    ensures
        kind_of_bytes(buffer@) is None && has_plain_file_name(path@) ==> r == format_of_file_name(path@),
        kind_of_bytes(buffer@) is Some ==> r == Ok::<ImageKind, Error>(kind_of_bytes(buffer@)->0),
        kind_of_bytes(buffer@) is None && path@.len() == 0 ==> r == Err::<ImageKind, Error>(Error::UnknownImageFormat),
        r is Err ==> r == Err::<ImageKind, Error>(Error::UnknownImageFormat),
        kind_of_bytes(buffer@) is None && r is Ok ==> exists|e: Seq<char>| #[trigger] occurs_in(e, path@) && kind_of_extension(e) == Some(r->Ok_0),
{
    match guess_format_extension(buffer) {
        Some(ext) => Ok(kind_from_first_extension(ext.as_str())),
        None => match path_extension(path) {
            Some(ext) => format_of_extension(ext.as_str()),
            None => Err(Error::UnknownImageFormat),
        },
    }
}

/// The format that the file extension `ext` names, or `UnknownImageFormat`.
pub fn format_of_extension(ext: &str) -> (r: Result<ImageKind, Error>)
    ensures
        kind_of_extension(ext@) is Some ==> r == Ok::<ImageKind, Error>(kind_of_extension(ext@)->0),
        kind_of_extension(ext@) is None ==> r == Err::<ImageKind, Error>(Error::UnknownImageFormat),
{
    match canonical_extension(ext) {
        Some(first) => Ok(kind_from_first_extension(first.as_str())),
        None => Err(Error::UnknownImageFormat),
    }
}

/// The first file extension of a format, as `ImageFormat::extensions_str` lists it; empty for
/// a format this library does not name.
pub open spec fn first_extension_of(kind: ImageKind) -> Seq<char> {
    match kind {
        ImageKind::Png => "png"@,
        ImageKind::Jpeg => "jpg"@,
        ImageKind::Gif => "gif"@,
        ImageKind::WebP => "webp"@,
        ImageKind::Pnm => "pbm"@,
        ImageKind::Tiff => "tiff"@,
        ImageKind::Tga => "tga"@,
        ImageKind::Dds => "dds"@,
        ImageKind::Bmp => "bmp"@,
        ImageKind::Ico => "ico"@,
        ImageKind::Hdr => "hdr"@,
        ImageKind::OpenExr => "exr"@,
        ImageKind::Farbfeld => "ff"@,
        ImageKind::Avif => "avif"@,
        ImageKind::Qoi => "qoi"@,
        ImageKind::Other => Seq::empty(),
    }
}

/// The first file extension of a format; empty for a format this library does not name.
pub fn first_extension(kind: ImageKind) -> (r: &'static str)
    ensures
        r@ == first_extension_of(kind),
{
    proof {
        reveal_strlit("png");
        reveal_strlit("jpg");
        reveal_strlit("gif");
        reveal_strlit("webp");
        reveal_strlit("pbm");
        reveal_strlit("tiff");
        reveal_strlit("tga");
        reveal_strlit("dds");
        reveal_strlit("bmp");
        reveal_strlit("ico");
        reveal_strlit("hdr");
        reveal_strlit("exr");
        reveal_strlit("ff");
        reveal_strlit("avif");
        reveal_strlit("qoi");
        reveal_strlit("");
    }
    match kind {
        ImageKind::Png => "png",
        ImageKind::Jpeg => "jpg",
        ImageKind::Gif => "gif",
        ImageKind::WebP => "webp",
        ImageKind::Pnm => "pbm",
        ImageKind::Tiff => "tiff",
        ImageKind::Tga => "tga",
        ImageKind::Dds => "dds",
        ImageKind::Bmp => "bmp",
        ImageKind::Ico => "ico",
        ImageKind::Hdr => "hdr",
        ImageKind::OpenExr => "exr",
        ImageKind::Farbfeld => "ff",
        ImageKind::Avif => "avif",
        ImageKind::Qoi => "qoi",
        ImageKind::Other => "",
    }
}

/// The largest width and height of a cover thumbnail.
pub const THUMBNAIL_SIZE: u32 = 400;

/// `ImageReader::with_format(..).decode()`, in the format that `ImageFormat::from_extension`
/// names, then `DynamicImage::thumbnail`, then `write_with_encoder` with
/// `WebPEncoder::new_lossless` into memory; `None` when the extension names no format or
/// decoding or encoding fails. Nothing is stated of the bytes: the JPEG decoder picks a SIMD or
/// a scalar color conversion on the machine it runs on, and nothing in its source shows the two
/// give the same pixels, so the result is not a function of the arguments alone. The bounds
/// keep the scaled image's buffer within what `ImageBuffer::new` can allocate without overflow.
#[verifier::external_body]
fn encode_thumbnail(bytes: &[u8], extension: &str, max_width: u32, max_height: u32) -> (r: Option<Vec<u8>>)
    requires
        0 < max_width <= 4096,
        0 < max_height <= 4096,
{
    let format = ImageFormat::from_extension(extension)?;
    let image = ImageReader::with_format(Cursor::new(bytes), format).decode().ok()?;
    let mut out = Vec::new();
    image.thumbnail(max_width, max_height).write_with_encoder(WebPEncoder::new_lossless(&mut out)).ok()?;
    Some(out)
}

/// The cover thumbnail of an image in the format `kind`: decoded in the format whose first
/// extension `first_extension` gives, scaled down to fit `THUMBNAIL_SIZE` by `THUMBNAIL_SIZE`,
/// as lossless WebP. `UnknownImageFormat` for a format this library does not name, without
/// decoding; `Image` when the image crate cannot decode the image or encode the thumbnail.
pub fn thumbnail_webp(buffer: &[u8], kind: ImageKind) -> (r: Result<Vec<u8>, Error>)
    ensures
        kind == ImageKind::Other ==> r == Err::<Vec<u8>, Error>(Error::UnknownImageFormat),
        kind != ImageKind::Other && r is Err ==> r == Err::<Vec<u8>, Error>(Error::Image),
{
    if kind == ImageKind::Other {
        return Err(Error::UnknownImageFormat);
    }
    match encode_thumbnail(buffer, first_extension(kind), THUMBNAIL_SIZE, THUMBNAIL_SIZE) {
        Some(bytes) => Ok(bytes),
        None => Err(Error::Image),
    }
}

/// The shape of the pages of a generated sample book.
#[derive(Clone, Copy, Debug, PartialEq, Eq, Structural)]
pub enum Orientation {
    Landscape,
    Portrait,
}

impl Orientation {
    /// The width and height of the pages: 1280 by 520 in landscape, 760 by 1200 in portrait.
    pub open spec fn dimensions_of(&self) -> (u32, u32) {
        match self {
            Orientation::Landscape => (1280u32, 520u32),
            Orientation::Portrait => (760u32, 1200u32),
        }
    }

    /// The width and height of the pages: 1280 by 520 in landscape, 760 by 1200 in portrait.
    pub fn dimensions(&self) -> (r: (u32, u32))
        ensures
            r == self.dimensions_of(),
    {
        match self {
            Orientation::Landscape => (1280, 520),
            Orientation::Portrait => (760, 1200),
        }
    }
}

} // verus!
