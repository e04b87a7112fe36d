//! The items of the menu of a reader window. Each reader window has its own copy, whose ids carry the window's id.

use crate::text::{concat, decimal, has_prefix, is_ascii_digit, lemma_decimal_digits, lemma_decimal_injective, owned, push_decimal, same_text, strip_prefix};
use crate::menu::layout::{
    entries_view, entry_view, lemma_with_enabled_flat, push_entry, submenu_view, with_enabled, EntryView, Menu,
    MenuEntry, Submenu,
};
use crate::window::ReaderMenuState;
use vstd::prelude::*;

verus! {

/// The items of the menu.
#[derive(Clone, Copy, Debug, PartialEq, Eq, Structural)]
pub enum Item {
    /// Add the book to the library.
    AddBookToLibrary,
    /// Close this reader window.
    Close,
    /// Close every reader window.
    CloseAll,
    /// Close the other reader windows.
    CloseOthers,
    /// Copy the path of the book.
    CopyBookPathToClipboard,
    /// Open the folder of the book.
    OpenBookFolder,
}

/// The text that identifies an item.
pub open spec fn item_id(item: Item) -> Seq<char> {
    match item {
        Item::AddBookToLibrary => "add-book-to-library"@,
        Item::Close => "close"@,
        Item::CloseAll => "close-all"@,
        Item::CloseOthers => "close-others"@,
        Item::CopyBookPathToClipboard => "copy-book-path-to-clipboard"@,
        Item::OpenBookFolder => "open-book-folder"@,
    }
}

/// The item that a text identifies, if any.
pub open spec fn item_from_id(id: Seq<char>) -> Option<Item> {
    if id == "add-book-to-library"@ {
        Some(Item::AddBookToLibrary)
    } else if id == "close"@ {
        Some(Item::Close)
    } else if id == "close-all"@ {
        Some(Item::CloseAll)
    } else if id == "close-others"@ {
        Some(Item::CloseOthers)
    } else if id == "copy-book-path-to-clipboard"@ {
        Some(Item::CopyBookPathToClipboard)
    } else if id == "open-book-folder"@ {
        Some(Item::OpenBookFolder)
    } else {
        None
    }
}

/// Reading back the text of an item gives the item: no two items share a text.
pub proof fn lemma_item_id_round_trip(item: Item)
    ensures
        item_from_id(item_id(item)) == Some(item),
{
    match item {
        Item::AddBookToLibrary => {
            reveal_strlit("add-book-to-library");
        },
        Item::Close => {
            reveal_strlit("close");
            reveal_strlit("add-book-to-library");
            assert("close"@.len() != "add-book-to-library"@.len());
        },
        Item::CloseAll => {
            reveal_strlit("close-all");
            reveal_strlit("add-book-to-library");
            assert("close-all"@.len() != "add-book-to-library"@.len());
            reveal_strlit("close");
            assert("close-all"@.len() != "close"@.len());
        },
        Item::CloseOthers => {
            reveal_strlit("close-others");
            reveal_strlit("add-book-to-library");
            assert("close-others"@.len() != "add-book-to-library"@.len());
            reveal_strlit("close");
            assert("close-others"@.len() != "close"@.len());
            reveal_strlit("close-all");
            assert("close-others"@.len() != "close-all"@.len());
        },
        Item::CopyBookPathToClipboard => {
            reveal_strlit("copy-book-path-to-clipboard");
            reveal_strlit("add-book-to-library");
            assert("copy-book-path-to-clipboard"@.len() != "add-book-to-library"@.len());
            reveal_strlit("close");
            assert("copy-book-path-to-clipboard"@.len() != "close"@.len());
            reveal_strlit("close-all");
            assert("copy-book-path-to-clipboard"@.len() != "close-all"@.len());
            reveal_strlit("close-others");
            assert("copy-book-path-to-clipboard"@.len() != "close-others"@.len());
        },
        Item::OpenBookFolder => {
            reveal_strlit("open-book-folder");
            reveal_strlit("add-book-to-library");
            assert("open-book-folder"@.len() != "add-book-to-library"@.len());
            reveal_strlit("close");
            assert("open-book-folder"@.len() != "close"@.len());
            reveal_strlit("close-all");
            assert("open-book-folder"@.len() != "close-all"@.len());
            reveal_strlit("close-others");
            assert("open-book-folder"@.len() != "close-others"@.len());
            reveal_strlit("copy-book-path-to-clipboard");
            assert("open-book-folder"@.len() != "copy-book-path-to-clipboard"@.len());
        },
    }
}

/// The prefix of the menu ids of the reader window `window_id`: `kt-reader-<id>-`.
pub open spec fn menu_id_prefix(window_id: u16) -> Seq<char> {
    "kt-reader-"@ + decimal(window_id as nat) + "-"@
}

/// The menu id of an item in the menu of reader window `window_id`.
pub open spec fn menu_id_of(item: Item, window_id: u16) -> Seq<char> {
    menu_id_prefix(window_id) + item_id(item)
}

/// The item of reader window `window_id`'s menu that a menu id names, if any.
pub open spec fn item_from_menu_id(menu_id: Seq<char>, window_id: u16) -> Option<Item> {
    if has_prefix(menu_id, menu_id_prefix(window_id)) {
        item_from_id(menu_id.subrange(menu_id_prefix(window_id).len() as int, menu_id.len() as int))
    } else {
        None
    }
}

/// A menu id made for a reader window is read back, by that window, as the item it was made for.
pub proof fn lemma_menu_id_round_trip(item: Item, window_id: u16)
    ensures
        item_from_menu_id(menu_id_of(item, window_id), window_id) == Some(item),
{
    let p = menu_id_prefix(window_id);
    let m = menu_id_of(item, window_id);
    assert(m.subrange(0, p.len() as int) =~= p);
    assert(m.subrange(p.len() as int, m.len() as int) =~= item_id(item));
    lemma_item_id_round_trip(item);
}

/// A menu id made for one reader window names no item for any other reader window: when a
/// menu item is chosen, every window is told, and only the window it belongs to acts on it.
pub proof fn lemma_menu_id_other_window(item: Item, window_id: u16, other: u16)
    requires
        window_id != other,
    ensures
        item_from_menu_id(menu_id_of(item, window_id), other) is None,
{
    reveal_strlit("kt-reader-");
    reveal_strlit("-");
    let head = "kt-reader-"@;
    let a = decimal(other as nat);
    let b = decimal(window_id as nat);
    let p = menu_id_prefix(other);
    let m = menu_id_of(item, window_id);
    lemma_decimal_digits(other as nat);
    lemma_decimal_digits(window_id as nat);
    assert(head.len() == 10);
    if has_prefix(m, p) {
        assert forall|k: int| 0 <= k < p.len() implies m[k] == p[k] by {
            assert(m.subrange(0, p.len() as int)[k] == m[k]);
        }
        if a.len() < b.len() {
            assert(m[10 + a.len() as int] == b[a.len() as int]);
            assert(p[10 + a.len() as int] == '-');
            assert(is_ascii_digit(b[a.len() as int]));
        } else if a.len() > b.len() {
            assert(m[10 + b.len() as int] == '-');
            assert(p[10 + b.len() as int] == a[b.len() as int]);
            assert(is_ascii_digit(a[b.len() as int]));
        } else {
            assert forall|k: int| 0 <= k < a.len() implies a[k] == b[k] by {
                assert(m[10 + k] == b[k]);
                assert(p[10 + k] == a[k]);
            }
            assert(a =~= b);
            lemma_decimal_injective(other as nat, window_id as nat);
        }
    }
}

impl Item {
    /// The text that identifies the item.
    pub fn id(&self) -> (r: &'static str)
        ensures
            r@ == item_id(*self),
    {
        match self {
            Item::AddBookToLibrary => "add-book-to-library",
            Item::Close => "close",
            Item::CloseAll => "close-all",
            Item::CloseOthers => "close-others",
            Item::CopyBookPathToClipboard => "copy-book-path-to-clipboard",
            Item::OpenBookFolder => "open-book-folder",
        }
    }

    /// The text that identifies the item, as an owned string.
    pub fn to_string(&self) -> (r: String)
        ensures
            r@ == item_id(*self),
    {
        owned(self.id())
    }

    /// The item that `id` identifies, if any.
    pub fn from_id(id: &str) -> (r: Option<Item>)
        ensures
            r == item_from_id(id@),
    {
        if same_text(id, "add-book-to-library") {
            Some(Item::AddBookToLibrary)
        } else if same_text(id, "close") {
            Some(Item::Close)
        } else if same_text(id, "close-all") {
            Some(Item::CloseAll)
        } else if same_text(id, "close-others") {
            Some(Item::CloseOthers)
        } else if same_text(id, "copy-book-path-to-clipboard") {
            Some(Item::CopyBookPathToClipboard)
        } else if same_text(id, "open-book-folder") {
            Some(Item::OpenBookFolder)
        } else {
            None
        }
    }

    /// The prefix of the menu ids of reader window `window_id`: `kt-reader-<id>-`.
    pub fn prefix(window_id: u16) -> (r: String)
        ensures
            r@ == menu_id_prefix(window_id),
    {
        let mut r = owned("kt-reader-");
        push_decimal(&mut r, window_id as u64);
        let r = concat(r.as_str(), "-");
        proof {
            assert(r@ =~= menu_id_prefix(window_id));
        }
        r
    }

    /// The menu id of the item in the menu of reader window `window_id`. When an item is chosen
    /// every window is told, so the id carries the window's id.
    pub fn to_menu_id(&self, window_id: u16) -> (r: String)
        ensures
            r@ == menu_id_of(*self, window_id),
    {
        let prefix = Item::prefix(window_id);
        concat(prefix.as_str(), self.id())
    }

    /// The item of reader window `window_id`'s menu that `menu_id` names, if any.
    pub fn from_menu_id(menu_id: &str, window_id: u16) -> (r: Option<Item>)
        ensures
            r == item_from_menu_id(menu_id@, window_id),
    {
        let prefix = Item::prefix(window_id);
        match strip_prefix(menu_id, prefix.as_str()) {
            Some(rest) => Item::from_id(rest.as_str()),
            None => None,
        }
    }
}

/// An item of reader window `window_id`'s menu, enabled or not.
pub open spec fn reader_item_view(item: Item, window_id: u16, text: Seq<char>, enabled: bool) -> EntryView {
    EntryView::Item { id: menu_id_of(item, window_id), text, enabled }
}

/// The File menu of reader window `window_id`, with "Add to library" and "Close others"
/// enabled or not.
pub open spec fn reader_file_menu_with(window_id: u16, add_to_library: bool, close_others: bool) -> EntryView {
    submenu_view(
        "File"@,
        seq![
            reader_item_view(Item::Close, window_id, "Close"@, true),
            reader_item_view(Item::CloseAll, window_id, "Close all"@, true),
            reader_item_view(Item::CloseOthers, window_id, "Close others"@, close_others),
            EntryView::Separator,
            reader_item_view(Item::AddBookToLibrary, window_id, "Add to library"@, add_to_library),
            EntryView::Separator,
            reader_item_view(Item::CopyBookPathToClipboard, window_id, "Copy book path"@, true),
            reader_item_view(Item::OpenBookFolder, window_id, "Open book folder"@, true),
        ],
    )
}

/// The menu of reader window `window_id`, as built: every item enabled.
pub open spec fn reader_menu_of(window_id: u16) -> Seq<EntryView> {
    seq![reader_file_menu_with(window_id, true, true)]
}

/// The menu of a reader window.
pub struct ReaderMenu;

impl ReaderMenu {
    /// Builds the menu of reader window `window_id`.
    pub fn build(window_id: u16) -> (m: Menu)
        ensures
            m@ == reader_menu_of(window_id),
    {
        let mut entries: Vec<MenuEntry> = Vec::new();
        push_entry(&mut entries, MenuEntry::Submenu(FileMenu::new(window_id).0));
        proof {
            assert(entries_view(entries@) =~= reader_menu_of(window_id));
        }
        Menu::new(entries)
    }

    /// Enables "Add to library" and "Close others" in the menu of reader window `window_id`
    /// as `state` says.
    pub fn update(menu: &mut Menu, window_id: u16, state: ReaderMenuState)
        ensures
            final(menu)@ == with_enabled(
                with_enabled(old(menu)@, menu_id_of(Item::AddBookToLibrary, window_id), state.add_to_library),
                menu_id_of(Item::CloseOthers, window_id),
                state.close_others,
            ),
    {
        let add = Item::AddBookToLibrary.to_menu_id(window_id);
        menu.set_item_enabled(add.as_str(), state.add_to_library);
        let others = Item::CloseOthers.to_menu_id(window_id);
        menu.set_item_enabled(others.as_str(), state.close_others);
    }
}

/// The File menu of a reader window.
pub struct FileMenu(pub Submenu);

impl FileMenu {
    pub fn new(window_id: u16) -> (m: FileMenu)
        ensures
            entry_view(MenuEntry::Submenu(m.0)) == reader_file_menu_with(window_id, true, true),
    {
        let mut entries: Vec<MenuEntry> = Vec::new();
        push_entry(&mut entries, MenuEntry::item(Item::Close.to_menu_id(window_id), "Close"));
        push_entry(&mut entries, MenuEntry::item(Item::CloseAll.to_menu_id(window_id), "Close all"));
        push_entry(&mut entries, MenuEntry::item(Item::CloseOthers.to_menu_id(window_id), "Close others"));
        push_entry(&mut entries, MenuEntry::separator());
        push_entry(&mut entries, MenuEntry::item(Item::AddBookToLibrary.to_menu_id(window_id), "Add to library"));
        push_entry(&mut entries, MenuEntry::separator());
        push_entry(&mut entries, MenuEntry::item(Item::CopyBookPathToClipboard.to_menu_id(window_id), "Copy book path"));
        push_entry(&mut entries, MenuEntry::item(Item::OpenBookFolder.to_menu_id(window_id), "Open book folder"));
        proof {
            assert(entries_view(entries@) =~= reader_file_menu_with(window_id, true, true)->Submenu_entries);
        }
        FileMenu(Submenu { id: None, text: owned("File"), enabled: true, entries })
    }
}

/// Different items of one reader window's menu have different menu ids.
proof fn lemma_menu_ids_differ(a: Item, b: Item, window_id: u16)
    requires
        a != b,
    ensures
        menu_id_of(a, window_id) != menu_id_of(b, window_id),
{
    if menu_id_of(a, window_id) == menu_id_of(b, window_id) {
        lemma_menu_id_round_trip(a, window_id);
        lemma_menu_id_round_trip(b, window_id);
    }
}

/// Updating the menu of a reader window as built enables "Add to library" and "Close others"
/// as the state says, and leaves every other entry as it was.
pub proof fn law_reader_menu_update(window_id: u16, state: ReaderMenuState)
    ensures
        with_enabled(
            with_enabled(reader_menu_of(window_id), menu_id_of(Item::AddBookToLibrary, window_id), state.add_to_library),
            menu_id_of(Item::CloseOthers, window_id),
            state.close_others,
        ) == seq![reader_file_menu_with(window_id, state.add_to_library, state.close_others)],
{
    let add = menu_id_of(Item::AddBookToLibrary, window_id);
    let others = menu_id_of(Item::CloseOthers, window_id);
    let built = reader_file_menu_with(window_id, true, true)->Submenu_entries;
    let added = reader_file_menu_with(window_id, state.add_to_library, true)->Submenu_entries;
    let both = reader_file_menu_with(window_id, state.add_to_library, state.close_others)->Submenu_entries;
    lemma_menu_ids_differ(Item::Close, Item::AddBookToLibrary, window_id);
    lemma_menu_ids_differ(Item::CloseAll, Item::AddBookToLibrary, window_id);
    lemma_menu_ids_differ(Item::CloseOthers, Item::AddBookToLibrary, window_id);
    lemma_menu_ids_differ(Item::Close, Item::CloseOthers, window_id);
    lemma_menu_ids_differ(Item::CloseAll, Item::CloseOthers, window_id);
    lemma_with_enabled_flat(built, add, state.add_to_library, 4);
    assert(with_enabled(built, add, state.add_to_library) =~= added);
    lemma_with_enabled_flat(added, others, state.close_others, 2);
    assert(with_enabled(added, others, state.close_others) =~= both);
    let empty = Seq::<EntryView>::empty();
    assert(with_enabled(empty, add, state.add_to_library) == empty);
    assert(with_enabled(empty, others, state.close_others) == empty);
    assert(reader_menu_of(window_id).subrange(1, 1) =~= empty);
    assert(reader_menu_of(window_id)[0] == reader_file_menu_with(window_id, true, true));
    assert(with_enabled(reader_menu_of(window_id), add, state.add_to_library) =~= seq![
        reader_file_menu_with(window_id, state.add_to_library, true),
    ]);
    assert(seq![reader_file_menu_with(window_id, state.add_to_library, true)].subrange(1, 1) =~= empty);
}

/// Each entry of a reader window's menu, whether or not its items are enabled, carries the
/// item its text names, for that window: "Close" closes it, "Close all" closes every reader
/// window, "Close others" the other ones, "Add to library" adds its book to the library, "Copy
/// book path" copies the book's path, and "Open book folder" opens the book's folder.
pub proof fn law_reader_entries_do_what_they_say(window_id: u16, add_to_library: bool, close_others: bool)
    ensures
        forall|k: int| #![trigger reader_file_menu_with(window_id, add_to_library, close_others)->Submenu_entries[k]]
            0 <= k < reader_file_menu_with(window_id, add_to_library, close_others)->Submenu_entries.len() ==> {
            let e = reader_file_menu_with(window_id, add_to_library, close_others)->Submenu_entries[k];
            let item = item_from_menu_id(e->Item_id, window_id);
            &&& e is Item ==> item is Some
            &&& e is Item && e->Item_text == "Close"@ ==> item == Some(Item::Close)
            &&& e is Item && e->Item_text == "Close all"@ ==> item == Some(Item::CloseAll)
            &&& e is Item && e->Item_text == "Close others"@ ==> item == Some(Item::CloseOthers)
                && e->Item_enabled == close_others
            &&& e is Item && e->Item_text == "Add to library"@ ==> item == Some(Item::AddBookToLibrary)
                && e->Item_enabled == add_to_library
            &&& e is Item && e->Item_text == "Copy book path"@ ==> item == Some(Item::CopyBookPathToClipboard)
            &&& e is Item && e->Item_text == "Open book folder"@ ==> item == Some(Item::OpenBookFolder)
        },
{
    lemma_menu_id_round_trip(Item::Close, window_id);
    lemma_menu_id_round_trip(Item::CloseAll, window_id);
    lemma_menu_id_round_trip(Item::CloseOthers, window_id);
    lemma_menu_id_round_trip(Item::AddBookToLibrary, window_id);
    lemma_menu_id_round_trip(Item::CopyBookPathToClipboard, window_id);
    lemma_menu_id_round_trip(Item::OpenBookFolder, window_id);
    reveal_strlit("Close");
    reveal_strlit("Close all");
    reveal_strlit("Close others");
    reveal_strlit("Add to library");
    reveal_strlit("Copy book path");
    reveal_strlit("Open book folder");
    assert("Close"@.len() == 5);
    assert("Close all"@.len() == 9);
    assert("Close others"@.len() == 12);
    assert("Add to library"@.len() == 14);
    assert("Copy book path"@.len() == 14);
    assert("Open book folder"@.len() == 16);
    assert("Add to library"@[0] != "Copy book path"@[0]);
}

} // verus!
