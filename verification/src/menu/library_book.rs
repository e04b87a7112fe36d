//! The items of the context menu of a book in the library.

use crate::menu::layout::{
    check_view, entries_view, item_view, lemma_with_checked_flat, lemma_with_checked_skip,
    push_entry, submenu_view, with_checked, EntryView, Menu, MenuEntry,
};
use crate::model::Book;
use crate::text::{owned, same_text};
use vstd::prelude::*;

verus! {

/// The items of the menu.
#[derive(Clone, Copy, Debug, PartialEq, Eq, Structural)]
pub enum Item {
    /// Mark the book as read.
    MarkAsRead,
    /// Mark the book as unread.
    MarkAsUnread,
    /// Open the book.
    OpenBook,
    /// Open the folder of the book.
    OpenBookFolder,
    /// Remove the book from the library.
    RemoveBook,
}

/// The text that identifies an item.
pub open spec fn item_id(item: Item) -> Seq<char> {
    match item {
        Item::MarkAsRead => "kt-ctx-library-book-mark-as-read"@,
        Item::MarkAsUnread => "kt-ctx-library-book-mark-as-unread"@,
        Item::OpenBook => "kt-ctx-library-book-open-book"@,
        Item::OpenBookFolder => "kt-ctx-library-book-open-book-folder"@,
        Item::RemoveBook => "kt-ctx-library-book-remove-book"@,
    }
}

/// The item that a text identifies, if any.
pub open spec fn item_from_id(id: Seq<char>) -> Option<Item> {
    if id == "kt-ctx-library-book-mark-as-read"@ {
        Some(Item::MarkAsRead)
    } else if id == "kt-ctx-library-book-mark-as-unread"@ {
        Some(Item::MarkAsUnread)
    } else if id == "kt-ctx-library-book-open-book"@ {
        Some(Item::OpenBook)
    } else if id == "kt-ctx-library-book-open-book-folder"@ {
        Some(Item::OpenBookFolder)
    } else if id == "kt-ctx-library-book-remove-book"@ {
        Some(Item::RemoveBook)
    } else {
        None
    }
}

/// Reading back the text of an item gives the item: no two items share a text.
pub proof fn lemma_item_id_round_trip(item: Item)
    ensures
        item_from_id(item_id(item)) == Some(item),
{
    match item {
        Item::MarkAsRead => {
            reveal_strlit("kt-ctx-library-book-mark-as-read");
        },
        Item::MarkAsUnread => {
            reveal_strlit("kt-ctx-library-book-mark-as-unread");
            reveal_strlit("kt-ctx-library-book-mark-as-read");
            assert("kt-ctx-library-book-mark-as-unread"@.len() != "kt-ctx-library-book-mark-as-read"@.len());
        },
        Item::OpenBook => {
            reveal_strlit("kt-ctx-library-book-open-book");
            reveal_strlit("kt-ctx-library-book-mark-as-read");
            assert("kt-ctx-library-book-open-book"@.len() != "kt-ctx-library-book-mark-as-read"@.len());
            reveal_strlit("kt-ctx-library-book-mark-as-unread");
            assert("kt-ctx-library-book-open-book"@.len() != "kt-ctx-library-book-mark-as-unread"@.len());
        },
        Item::OpenBookFolder => {
            reveal_strlit("kt-ctx-library-book-open-book-folder");
            reveal_strlit("kt-ctx-library-book-mark-as-read");
            assert("kt-ctx-library-book-open-book-folder"@.len() != "kt-ctx-library-book-mark-as-read"@.len());
            reveal_strlit("kt-ctx-library-book-mark-as-unread");
            assert("kt-ctx-library-book-open-book-folder"@.len() != "kt-ctx-library-book-mark-as-unread"@.len());
            reveal_strlit("kt-ctx-library-book-open-book");
            assert("kt-ctx-library-book-open-book-folder"@.len() != "kt-ctx-library-book-open-book"@.len());
        },
        Item::RemoveBook => {
            reveal_strlit("kt-ctx-library-book-remove-book");
            reveal_strlit("kt-ctx-library-book-mark-as-read");
            assert("kt-ctx-library-book-remove-book"@.len() != "kt-ctx-library-book-mark-as-read"@.len());
            reveal_strlit("kt-ctx-library-book-mark-as-unread");
            assert("kt-ctx-library-book-remove-book"@.len() != "kt-ctx-library-book-mark-as-unread"@.len());
            reveal_strlit("kt-ctx-library-book-open-book");
            assert("kt-ctx-library-book-remove-book"@.len() != "kt-ctx-library-book-open-book"@.len());
            reveal_strlit("kt-ctx-library-book-open-book-folder");
            assert("kt-ctx-library-book-remove-book"@.len() != "kt-ctx-library-book-open-book-folder"@.len());
        },
    }
}

impl Item {
    /// The text that identifies the item.
    pub fn id(&self) -> (r: &'static str)
        ensures
            r@ == item_id(*self),
    {
        match self {
            Item::MarkAsRead => "kt-ctx-library-book-mark-as-read",
            Item::MarkAsUnread => "kt-ctx-library-book-mark-as-unread",
            Item::OpenBook => "kt-ctx-library-book-open-book",
            Item::OpenBookFolder => "kt-ctx-library-book-open-book-folder",
            Item::RemoveBook => "kt-ctx-library-book-remove-book",
        }
    }

    /// The text that identifies the item, as an owned string.
    pub fn to_string(&self) -> (r: String)
        ensures
            r@ == item_id(*self),
    {
        owned(self.id())
    }

    /// The item that `id` identifies, if any.
    pub fn from_id(id: &str) -> (r: Option<Item>)
        ensures
            r == item_from_id(id@),
    {
        if same_text(id, "kt-ctx-library-book-mark-as-read") {
            Some(Item::MarkAsRead)
        } else if same_text(id, "kt-ctx-library-book-mark-as-unread") {
            Some(Item::MarkAsUnread)
        } else if same_text(id, "kt-ctx-library-book-open-book") {
            Some(Item::OpenBook)
        } else if same_text(id, "kt-ctx-library-book-open-book-folder") {
            Some(Item::OpenBookFolder)
        } else if same_text(id, "kt-ctx-library-book-remove-book") {
            Some(Item::RemoveBook)
        } else {
            None
        }
    }

    /// The menu id of the item: its text.
    pub fn to_menu_id(&self) -> (r: String)
        ensures
            r@ == item_id(*self),
    {
        self.to_string()
    }
}

/// The book that the menu was opened on.
#[derive(Clone, Debug)]
pub struct Context {
    pub book: Book,
}

/// The "Mark as" submenu, with the book's state checked.
pub open spec fn mark_as_menu_of(read: bool) -> EntryView {
    submenu_view(
        "Mark as"@,
        seq![
            check_view(item_id(Item::MarkAsRead), "Read"@, read),
            check_view(item_id(Item::MarkAsUnread), "Unread"@, !read),
        ],
    )
}

/// The context menu of a book of the library, read or not.
pub open spec fn library_book_menu_of(read: bool) -> Seq<EntryView> {
    seq![
        item_view(item_id(Item::OpenBook), "Open"@),
        item_view(item_id(Item::RemoveBook), "Remove"@),
        EntryView::Separator,
        mark_as_menu_of(read),
        EntryView::Separator,
        item_view(item_id(Item::OpenBookFolder), "Open folder"@),
    ]
}

/// The context menu of a book of the library, with the book it was last opened on.
pub struct LibraryBookContextMenu {
    pub menu: Menu,
    pub ctx: Context,
}

impl LibraryBookContextMenu {
    /// The menu for the book of `ctx`.
    pub fn new(ctx: Context) -> (m: LibraryBookContextMenu)
        ensures
            m.menu@ == library_book_menu_of(ctx.book.read),
            m.ctx == ctx,
    {
        let read = ctx.book.read;
        let mut marks: Vec<MenuEntry> = Vec::new();
        push_entry(&mut marks, MenuEntry::check(Item::MarkAsRead.to_menu_id(), "Read", read));
        push_entry(&mut marks, MenuEntry::check(Item::MarkAsUnread.to_menu_id(), "Unread", !read));
        let mut entries: Vec<MenuEntry> = Vec::new();
        push_entry(&mut entries, MenuEntry::item(Item::OpenBook.to_menu_id(), "Open"));
        push_entry(&mut entries, MenuEntry::item(Item::RemoveBook.to_menu_id(), "Remove"));
        push_entry(&mut entries, MenuEntry::separator());
        push_entry(&mut entries, MenuEntry::submenu("Mark as", marks));
        push_entry(&mut entries, MenuEntry::separator());
        push_entry(&mut entries, MenuEntry::item(Item::OpenBookFolder.to_menu_id(), "Open folder"));
        proof {
            assert(entries_view(marks@) =~= mark_as_menu_of(read)->Submenu_entries);
            assert(entries_view(entries@) =~= library_book_menu_of(read));
        }
        LibraryBookContextMenu { menu: Menu::new(entries), ctx }
    }

    /// Checks "Read" or "Unread" as the book of `ctx` is read or not.
    pub fn update(&mut self, ctx: &Context)
        ensures
            final(self).menu@ == with_checked(
                with_checked(old(self).menu@, item_id(Item::MarkAsRead), ctx.book.read),
                item_id(Item::MarkAsUnread),
                !ctx.book.read,
            ),
            final(self).ctx == old(self).ctx,
    {
        let read = ctx.book.read;
        let id = Item::MarkAsRead.to_menu_id();
        self.menu.set_item_checked(id.as_str(), read);
        let id = Item::MarkAsUnread.to_menu_id();
        self.menu.set_item_checked(id.as_str(), !read);
    }
}

/// Checks "Read" or "Unread" in a "Mark as" submenu.
proof fn lemma_mark_as(before: bool, read: bool)
    ensures
        with_checked(
            with_checked(mark_as_menu_of(before)->Submenu_entries, item_id(Item::MarkAsRead), read),
            item_id(Item::MarkAsUnread),
            !read,
        ) == mark_as_menu_of(read)->Submenu_entries,
{
    lemma_item_id_round_trip(Item::MarkAsRead);
    lemma_item_id_round_trip(Item::MarkAsUnread);
    let marks = mark_as_menu_of(before)->Submenu_entries;
    lemma_with_checked_flat(marks, item_id(Item::MarkAsRead), read, 0);
    let once = marks.update(0, check_view(item_id(Item::MarkAsRead), "Read"@, read));
    assert(with_checked(marks, item_id(Item::MarkAsRead), read) == once);
    lemma_with_checked_flat(once, item_id(Item::MarkAsUnread), !read, 1);
    assert(once.update(1, check_view(item_id(Item::MarkAsUnread), "Unread"@, !read)) =~= mark_as_menu_of(read)->Submenu_entries);
}

/// Updating the context menu for a book shows what a menu made for that book shows, whichever
/// book it was made for.
pub proof fn law_context_menu_update(before: bool, read: bool)
    ensures
        with_checked(
            with_checked(library_book_menu_of(before), item_id(Item::MarkAsRead), read),
            item_id(Item::MarkAsUnread),
            !read,
        ) == library_book_menu_of(read),
{
    lemma_item_id_round_trip(Item::MarkAsRead);
    lemma_item_id_round_trip(Item::MarkAsUnread);
    let read_id = item_id(Item::MarkAsRead);
    let unread_id = item_id(Item::MarkAsUnread);
    let menu = library_book_menu_of(before);
    let head = menu.subrange(0, 3);
    let tail = menu.subrange(4, 6);
    assert(menu =~= head + (seq![mark_as_menu_of(before)] + tail));
    lemma_with_checked_skip(head, seq![mark_as_menu_of(before)] + tail, read_id, read);
    lemma_with_checked_skip(tail, Seq::empty(), read_id, read);
    lemma_with_checked_skip(tail, Seq::empty(), unread_id, !read);
    assert(tail + Seq::<EntryView>::empty() =~= tail);
    assert(with_checked(Seq::<EntryView>::empty(), read_id, read) == Seq::<EntryView>::empty());
    assert(with_checked(Seq::<EntryView>::empty(), unread_id, !read) == Seq::<EntryView>::empty());
    let mid = submenu_view("Mark as"@, with_checked(mark_as_menu_of(before)->Submenu_entries, read_id, read));
    assert((seq![mark_as_menu_of(before)] + tail).subrange(1, 3) =~= tail);
    assert(with_checked(seq![mark_as_menu_of(before)] + tail, read_id, read) == seq![mid] + tail);
    let once = head + (seq![mid] + tail);
    lemma_with_checked_skip(head, seq![mid] + tail, unread_id, !read);
    assert((seq![mid] + tail).subrange(1, 3) =~= tail);
    lemma_mark_as(before, read);
    assert(with_checked(seq![mid] + tail, unread_id, !read) == seq![mark_as_menu_of(read)] + tail);
    assert(head + (seq![mark_as_menu_of(read)] + tail) =~= library_book_menu_of(read));
}

/// The item that an entry's id names, for an item or a check entry.
pub open spec fn entry_item(entry: EntryView) -> Option<Item> {
    match entry {
        EntryView::Item { id, .. } => item_from_id(id),
        EntryView::Check { id, .. } => item_from_id(id),
        _ => None,
    }
}

/// Each entry of a book's context menu carries the item its text names, whether or not the
/// book is read: choosing "Open" opens the book, "Remove" removes it from the library, "Open
/// folder" opens its folder; in the "Mark as" submenu, "Read" marks it read and is checked when
/// it is read, "Unread" marks it unread and is checked when it is not. Each of these entries is
/// in the menu.
pub proof fn law_context_entries_do_what_they_say(read: bool)
    ensures
        forall|k: int| #![trigger library_book_menu_of(read)[k]] 0 <= k < library_book_menu_of(read).len() ==> {
            let e = library_book_menu_of(read)[k];
            &&& e is Item ==> entry_item(e) is Some
            &&& e is Item && e->Item_text == "Open"@ ==> entry_item(e) == Some(Item::OpenBook)
            &&& e is Item && e->Item_text == "Remove"@ ==> entry_item(e) == Some(Item::RemoveBook)
            &&& e is Item && e->Item_text == "Open folder"@ ==> entry_item(e) == Some(Item::OpenBookFolder)
            &&& e is Submenu ==> forall|j: int| #![trigger e->Submenu_entries[j]] 0 <= j < e->Submenu_entries.len() ==> {
                let c = e->Submenu_entries[j];
                &&& c is Check
                &&& c->Check_text == "Read"@ ==> entry_item(c) == Some(Item::MarkAsRead) && c->Check_checked == read
                &&& c->Check_text == "Unread"@ ==> entry_item(c) == Some(Item::MarkAsUnread) && c->Check_checked == !read
            }
        },
        exists|k: int| 0 <= k < library_book_menu_of(read).len() && #[trigger] library_book_menu_of(read)[k] is Item
            && library_book_menu_of(read)[k]->Item_text == "Open"@,
        exists|k: int| 0 <= k < library_book_menu_of(read).len() && #[trigger] library_book_menu_of(read)[k] is Item
            && library_book_menu_of(read)[k]->Item_text == "Remove"@,
        exists|k: int| 0 <= k < library_book_menu_of(read).len() && #[trigger] library_book_menu_of(read)[k] is Item
            && library_book_menu_of(read)[k]->Item_text == "Open folder"@,
{
    lemma_item_id_round_trip(Item::OpenBook);
    lemma_item_id_round_trip(Item::RemoveBook);
    lemma_item_id_round_trip(Item::OpenBookFolder);
    lemma_item_id_round_trip(Item::MarkAsRead);
    lemma_item_id_round_trip(Item::MarkAsUnread);
    reveal_strlit("Open");
    reveal_strlit("Remove");
    reveal_strlit("Open folder");
    reveal_strlit("Read");
    reveal_strlit("Unread");
    assert("Open"@.len() != "Remove"@.len() && "Open"@.len() != "Open folder"@.len()
        && "Remove"@.len() != "Open folder"@.len());
    assert("Read"@.len() != "Unread"@.len());
    let m = library_book_menu_of(read);
    assert(m[0] == item_view(item_id(Item::OpenBook), "Open"@));
    assert(m[1] == item_view(item_id(Item::RemoveBook), "Remove"@));
    assert(m[5] == item_view(item_id(Item::OpenBookFolder), "Open folder"@));
    let marks = mark_as_menu_of(read)->Submenu_entries;
    assert(marks[0] == check_view(item_id(Item::MarkAsRead), "Read"@, read));
    assert(marks[1] == check_view(item_id(Item::MarkAsUnread), "Unread"@, !read));
}

} // verus!
