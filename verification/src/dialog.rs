//! The dialogs the application shows: what they say and what their buttons read. The windowing
//! toolkit shows them; the answers come back as plain values.

use crate::text::{concat, owned};
use vstd::prelude::*;

verus! {

/// How a message dialog looks.
#[derive(Clone, Copy, Debug, PartialEq, Eq, Structural)]
pub enum DialogKind {
    Info,
    Warning,
    Error,
}

/// A message dialog with a confirming and a cancelling button.
#[derive(Clone, Debug, PartialEq, Eq)]
pub struct MessageDialog {
    pub title: String,
    pub message: String,
    pub kind: DialogKind,
    pub ok_label: String,
    pub cancel_label: String,
}

/// The texts of a dialog.
pub open spec fn dialog_is(
    d: MessageDialog,
    title: Seq<char>,
    message: Seq<char>,
    kind: DialogKind,
    ok_label: Seq<char>,
    cancel_label: Seq<char>,
) -> bool {
    &&& d.title@ == title
    &&& d.message@ == message
    &&& d.kind == kind
    &&& d.ok_label@ == ok_label
    &&& d.cancel_label@ == cancel_label
}

/// Asks whether the book titled `title` should leave the library.
pub fn remove_book_dialog(title: &str) -> (d: MessageDialog)
    ensures
        dialog_is(d, "Remove book"@, title@ + " will be removed from the library."@, DialogKind::Warning, "Remove"@, "Cancel"@),
{
    MessageDialog {
        title: owned("Remove book"),
        message: concat(title, " will be removed from the library."),
        kind: DialogKind::Warning,
        ok_label: owned("Remove"),
        cancel_label: owned("Cancel"),
    }
}

/// Asks whether every book should leave the library.
pub fn remove_all_books_dialog() -> (d: MessageDialog)
    ensures
        dialog_is(
            d,
            "Remove all books"@,
            "All books will be removed. Are you sure?"@,
            DialogKind::Warning,
            "Clear"@,
            "Cancel"@,
        ),
{
    MessageDialog {
        title: owned("Remove all books"),
        message: owned("All books will be removed. Are you sure?"),
        kind: DialogKind::Warning,
        ok_label: owned("Clear"),
        cancel_label: owned("Cancel"),
    }
}

/// Asks whether Kotori may restart to show the new color mode.
pub fn color_mode_dialog() -> (d: MessageDialog)
    ensures
        dialog_is(
            d,
            "Color mode"@,
            "Kotori must restart to apply the change. Do you want to continue?"@,
            DialogKind::Info,
            "Confirm"@,
            "Cancel"@,
        ),
{
    MessageDialog {
        title: owned("Color mode"),
        message: owned("Kotori must restart to apply the change. Do you want to continue?"),
        kind: DialogKind::Info,
        ok_label: owned("Confirm"),
        cancel_label: owned("Cancel"),
    }
}

/// A file filter of a file dialog: its name and the extensions it shows.
#[derive(Clone, Debug, PartialEq, Eq)]
pub struct FileFilter {
    pub name: String,
    pub extensions: Vec<String>,
}

/// The filter of the dialog that picks books to open: `cbr`, `cbz` and `zip` files.
pub fn book_file_filter() -> (f: FileFilter)
    ensures
        f.name@ == "Book"@,
        f.extensions@.len() == 3,
        f.extensions@[0]@ == "cbr"@,
        f.extensions@[1]@ == "cbz"@,
        f.extensions@[2]@ == "zip"@,
{
    let mut extensions: Vec<String> = Vec::new();
    extensions.push(owned("cbr"));
    extensions.push(owned("cbz"));
    extensions.push(owned("zip"));
    FileFilter { name: owned("Book"), extensions }
}

} // verus!
