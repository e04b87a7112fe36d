//! The items of the context menu of a page in the reader.

use crate::menu::layout::{entries_view, item_view, push_entry, EntryView, Menu, MenuEntry};
use crate::text::{owned, same_text};
use vstd::prelude::*;

verus! {

/// The items of the menu.
#[derive(Clone, Copy, Debug, PartialEq, Eq, Structural)]
pub enum Item {
    /// Delete the page from the book.
    DeletePage,
    /// Make the page the cover of the book.
    SetAsCover,
}

/// The text that identifies an item.
pub open spec fn item_id(item: Item) -> Seq<char> {
    match item {
        Item::DeletePage => "kt-ctx-reader-page-delete-page"@,
        Item::SetAsCover => "kt-ctx-reader-page-set-as-cover"@,
    }
}

/// The item that a text identifies, if any.
pub open spec fn item_from_id(id: Seq<char>) -> Option<Item> {
    if id == "kt-ctx-reader-page-delete-page"@ {
        Some(Item::DeletePage)
    } else if id == "kt-ctx-reader-page-set-as-cover"@ {
        Some(Item::SetAsCover)
    } else {
        None
    }
}

/// Reading back the text of an item gives the item: no two items share a text.
pub proof fn lemma_item_id_round_trip(item: Item)
    ensures
        item_from_id(item_id(item)) == Some(item),
{
    match item {
        Item::DeletePage => {
            reveal_strlit("kt-ctx-reader-page-delete-page");
        },
        Item::SetAsCover => {
            reveal_strlit("kt-ctx-reader-page-set-as-cover");
            reveal_strlit("kt-ctx-reader-page-delete-page");
            assert("kt-ctx-reader-page-set-as-cover"@.len() != "kt-ctx-reader-page-delete-page"@.len());
        },
    }
}

impl Item {
    /// The text that identifies the item.
    pub fn id(&self) -> (r: &'static str)
        ensures
            r@ == item_id(*self),
    {
        match self {
            Item::DeletePage => "kt-ctx-reader-page-delete-page",
            Item::SetAsCover => "kt-ctx-reader-page-set-as-cover",
        }
    }

    /// The text that identifies the item, as an owned string.
    pub fn to_string(&self) -> (r: String)
        ensures
            r@ == item_id(*self),
    {
        owned(self.id())
    }

    /// The item that `id` identifies, if any.
    pub fn from_id(id: &str) -> (r: Option<Item>)
        ensures
            r == item_from_id(id@),
    {
        if same_text(id, "kt-ctx-reader-page-delete-page") {
            Some(Item::DeletePage)
        } else if same_text(id, "kt-ctx-reader-page-set-as-cover") {
            Some(Item::SetAsCover)
        } else {
            None
        }
    }

}

/// The page that the menu was opened on: the reader window, the book's id in the library if
/// it is there, and the page's name.
#[derive(Clone, Debug)]
pub struct Context {
    pub window_id: u16,
    pub book_id: Option<i32>,
    pub name: String,
}

/// The context menu of a page.
pub open spec fn reader_page_menu_of() -> Seq<EntryView> {
    seq![
        item_view(item_id(Item::SetAsCover), "Set as cover"@),
        EntryView::Separator,
        item_view(item_id(Item::DeletePage), "Delete page"@),
    ]
}

/// The context menu of a page, with the page it was last opened on.
pub struct ReaderPageContextMenu {
    pub menu: Menu,
    pub ctx: Context,
}

impl ReaderPageContextMenu {
    /// The menu for the page of `ctx`.
    pub fn new(ctx: Context) -> (m: ReaderPageContextMenu)
        ensures
            m.menu@ == reader_page_menu_of(),
            m.ctx == ctx,
    {
        let mut entries: Vec<MenuEntry> = Vec::new();
        push_entry(&mut entries, MenuEntry::item(Item::SetAsCover.to_string(), "Set as cover"));
        push_entry(&mut entries, MenuEntry::separator());
        push_entry(&mut entries, MenuEntry::item(Item::DeletePage.to_string(), "Delete page"));
        proof {
            assert(entries_view(entries@) =~= reader_page_menu_of());
        }
        ReaderPageContextMenu { menu: Menu::new(entries), ctx }
    }
}

impl Context {
    /// The cover to save when the page is set as the cover: the book's id and the page's name,
    /// when the book is in the library; nothing otherwise.
    pub fn cover_update(&self) -> (r: Option<(i32, String)>)
        ensures
            self.book_id is None ==> r is None,
            self.book_id is Some ==> r is Some && (r->0).0 == self.book_id->0 && (r->0).1@ == self.name@,
    {
        match self.book_id {
            Some(id) => Some((id, self.name.clone())),
            None => None,
        }
    }
}

/// Each entry of a page's context menu carries the item its text names: "Set as cover" makes
/// the page the book's cover and "Delete page" deletes it. Both are in the menu.
pub proof fn law_page_entries_do_what_they_say()
    ensures
        forall|k: int| #![trigger reader_page_menu_of()[k]] 0 <= k < reader_page_menu_of().len() ==> {
            let e = reader_page_menu_of()[k];
            &&& e is Item ==> item_from_id(e->Item_id) is Some
            &&& e is Item && e->Item_text == "Set as cover"@ ==> item_from_id(e->Item_id) == Some(Item::SetAsCover)
            &&& e is Item && e->Item_text == "Delete page"@ ==> item_from_id(e->Item_id) == Some(Item::DeletePage)
        },
        exists|k: int| 0 <= k < reader_page_menu_of().len() && #[trigger] reader_page_menu_of()[k] is Item
            && reader_page_menu_of()[k]->Item_text == "Set as cover"@,
        exists|k: int| 0 <= k < reader_page_menu_of().len() && #[trigger] reader_page_menu_of()[k] is Item
            && reader_page_menu_of()[k]->Item_text == "Delete page"@,
{
    lemma_item_id_round_trip(Item::SetAsCover);
    lemma_item_id_round_trip(Item::DeletePage);
    reveal_strlit("Set as cover");
    reveal_strlit("Delete page");
    assert("Set as cover"@.len() == 12 && "Delete page"@.len() == 11);
    let m = reader_page_menu_of();
    assert(m[0] == item_view(item_id(Item::SetAsCover), "Set as cover"@));
    assert(m[2] == item_view(item_id(Item::DeletePage), "Delete page"@));
}

} // verus!
