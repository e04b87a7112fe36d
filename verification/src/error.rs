//! The errors that the library's operations report.

use vstd::prelude::*;

verus! {

/// Why an operation of the library failed.
#[derive(Clone, Debug, PartialEq, Eq, Structural)]
pub enum Error {
    /// The book holds no page.
    EmptyBook,
    /// A path has no parent directory, or is otherwise unusable.
    InvalidPath,
    /// A rating above the highest one allowed.
    InvalidRating,
    /// A number does not fit the integer type it must be converted to.
    IntegerOutOfRange,
    /// No reader window has the given id.
    ReaderWindowNotFound,
    /// The window has no menu.
    WindowMenuNotFound,
    /// Neither the bytes nor the file name tell the image format.
    UnknownImageFormat,
    /// The book file name has no stem from which a title can be taken.
    InvalidBookTitle,
    /// The image could not be decoded, or its thumbnail or page could not be encoded.
    Image,
}

} // verus!
