//! The items of the application menu.

use crate::menu::layout::{
    check_view, entries_view, entry_view, item_view, push_entry, submenu_view, AboutMetadata, EntryView, Menu,
    MenuEntry, Predefined, Submenu,
};
use crate::metadata::VERSION;
use crate::text::{owned, same_text};
use crate::image::Orientation;
use crate::window::ColorMode;
use vstd::prelude::*;

verus! {

/// The items of the menu.
#[derive(Clone, Copy, Debug, PartialEq, Eq, Structural)]
pub enum Item {
    /// Show the about box.
    About,
    /// Add folders to the library.
    AddToLibrary,
    /// Follow the system's color scheme.
    ColorModeAuto,
    /// Use the dark color scheme.
    ColorModeDark,
    /// Use the light color scheme.
    ColorModeLight,
    /// Open the Discord server.
    Discord,
    /// Open a random book of the library.
    RandomBook,
    /// Open the source repository.
    Repository,
    /// Look for new books in the library's folders.
    ScanBookFolders,
    /// Open book files.
    OpenFile,
    /// Add generated landscape books (development builds).
    AddMockBooksLandscape,
    /// Add generated portrait books (development builds).
    AddMockBooksPortrait,
    /// Remove every book (development builds).
    RemoveAllBooks,
}

/// The text that identifies an item.
pub open spec fn item_id(item: Item) -> Seq<char> {
    match item {
        Item::About => "kt-app-about"@,
        Item::AddToLibrary => "kt-app-add-to-library"@,
        Item::ColorModeAuto => "kt-app-color-mode-auto"@,
        Item::ColorModeDark => "kt-app-color-mode-dark"@,
        Item::ColorModeLight => "kt-app-color-mode-light"@,
        Item::Discord => "kt-app-discord"@,
        Item::RandomBook => "kt-app-random-book"@,
        Item::Repository => "kt-app-repository"@,
        Item::ScanBookFolders => "kt-app-scan-book-folders"@,
        Item::OpenFile => "kt-app-open-file"@,
        Item::AddMockBooksLandscape => "kt-app-add-mock-books-landscape"@,
        Item::AddMockBooksPortrait => "kt-app-add-mock-books-portrait"@,
        Item::RemoveAllBooks => "kt-app-remove-all-books"@,
    }
}

/// The item that a text identifies, if any.
pub open spec fn item_from_id(id: Seq<char>) -> Option<Item> {
    if id == "kt-app-about"@ {
        Some(Item::About)
    } else if id == "kt-app-add-to-library"@ {
        Some(Item::AddToLibrary)
    } else if id == "kt-app-color-mode-auto"@ {
        Some(Item::ColorModeAuto)
    } else if id == "kt-app-color-mode-dark"@ {
        Some(Item::ColorModeDark)
    } else if id == "kt-app-color-mode-light"@ {
        Some(Item::ColorModeLight)
    } else if id == "kt-app-discord"@ {
        Some(Item::Discord)
    } else if id == "kt-app-random-book"@ {
        Some(Item::RandomBook)
    } else if id == "kt-app-repository"@ {
        Some(Item::Repository)
    } else if id == "kt-app-scan-book-folders"@ {
        Some(Item::ScanBookFolders)
    } else if id == "kt-app-open-file"@ {
        Some(Item::OpenFile)
    } else if id == "kt-app-add-mock-books-landscape"@ {
        Some(Item::AddMockBooksLandscape)
    } else if id == "kt-app-add-mock-books-portrait"@ {
        Some(Item::AddMockBooksPortrait)
    } else if id == "kt-app-remove-all-books"@ {
        Some(Item::RemoveAllBooks)
    } else {
        None
    }
}

/// Reading back the text of an item gives the item: no two items share a text.
pub proof fn lemma_item_id_round_trip(item: Item)
    ensures
        item_from_id(item_id(item)) == Some(item),
{
    match item {
        Item::About => {
            reveal_strlit("kt-app-about");
        },
        Item::AddToLibrary => {
            reveal_strlit("kt-app-add-to-library");
            reveal_strlit("kt-app-about");
            assert("kt-app-add-to-library"@.len() != "kt-app-about"@.len());
        },
        Item::ColorModeAuto => {
            reveal_strlit("kt-app-color-mode-auto");
            reveal_strlit("kt-app-about");
            assert("kt-app-color-mode-auto"@.len() != "kt-app-about"@.len());
            reveal_strlit("kt-app-add-to-library");
            assert("kt-app-color-mode-auto"@.len() != "kt-app-add-to-library"@.len());
        },
        Item::ColorModeDark => {
            reveal_strlit("kt-app-color-mode-dark");
            reveal_strlit("kt-app-about");
            assert("kt-app-color-mode-dark"@.len() != "kt-app-about"@.len());
            reveal_strlit("kt-app-add-to-library");
            assert("kt-app-color-mode-dark"@.len() != "kt-app-add-to-library"@.len());
            reveal_strlit("kt-app-color-mode-auto");
            assert("kt-app-color-mode-dark"@[18] != "kt-app-color-mode-auto"@[18]);
        },
        Item::ColorModeLight => {
            reveal_strlit("kt-app-color-mode-light");
            reveal_strlit("kt-app-about");
            assert("kt-app-color-mode-light"@.len() != "kt-app-about"@.len());
            reveal_strlit("kt-app-add-to-library");
            assert("kt-app-color-mode-light"@.len() != "kt-app-add-to-library"@.len());
            reveal_strlit("kt-app-color-mode-auto");
            assert("kt-app-color-mode-light"@.len() != "kt-app-color-mode-auto"@.len());
            reveal_strlit("kt-app-color-mode-dark");
            assert("kt-app-color-mode-light"@.len() != "kt-app-color-mode-dark"@.len());
        },
        Item::Discord => {
            reveal_strlit("kt-app-discord");
            reveal_strlit("kt-app-about");
            assert("kt-app-discord"@.len() != "kt-app-about"@.len());
            reveal_strlit("kt-app-add-to-library");
            assert("kt-app-discord"@.len() != "kt-app-add-to-library"@.len());
            reveal_strlit("kt-app-color-mode-auto");
            assert("kt-app-discord"@.len() != "kt-app-color-mode-auto"@.len());
            reveal_strlit("kt-app-color-mode-dark");
            assert("kt-app-discord"@.len() != "kt-app-color-mode-dark"@.len());
            reveal_strlit("kt-app-color-mode-light");
            assert("kt-app-discord"@.len() != "kt-app-color-mode-light"@.len());
        },
        Item::RandomBook => {
            reveal_strlit("kt-app-random-book");
            reveal_strlit("kt-app-about");
            assert("kt-app-random-book"@.len() != "kt-app-about"@.len());
            reveal_strlit("kt-app-add-to-library");
            assert("kt-app-random-book"@.len() != "kt-app-add-to-library"@.len());
            reveal_strlit("kt-app-color-mode-auto");
            assert("kt-app-random-book"@.len() != "kt-app-color-mode-auto"@.len());
            reveal_strlit("kt-app-color-mode-dark");
            assert("kt-app-random-book"@.len() != "kt-app-color-mode-dark"@.len());
            reveal_strlit("kt-app-color-mode-light");
            assert("kt-app-random-book"@.len() != "kt-app-color-mode-light"@.len());
            reveal_strlit("kt-app-discord");
            assert("kt-app-random-book"@.len() != "kt-app-discord"@.len());
        },
        Item::Repository => {
            reveal_strlit("kt-app-repository");
            reveal_strlit("kt-app-about");
            assert("kt-app-repository"@.len() != "kt-app-about"@.len());
            reveal_strlit("kt-app-add-to-library");
            assert("kt-app-repository"@.len() != "kt-app-add-to-library"@.len());
            reveal_strlit("kt-app-color-mode-auto");
            assert("kt-app-repository"@.len() != "kt-app-color-mode-auto"@.len());
            reveal_strlit("kt-app-color-mode-dark");
            assert("kt-app-repository"@.len() != "kt-app-color-mode-dark"@.len());
            reveal_strlit("kt-app-color-mode-light");
            assert("kt-app-repository"@.len() != "kt-app-color-mode-light"@.len());
            reveal_strlit("kt-app-discord");
            assert("kt-app-repository"@.len() != "kt-app-discord"@.len());
            reveal_strlit("kt-app-random-book");
            assert("kt-app-repository"@.len() != "kt-app-random-book"@.len());
        },
        Item::ScanBookFolders => {
            reveal_strlit("kt-app-scan-book-folders");
            reveal_strlit("kt-app-about");
            assert("kt-app-scan-book-folders"@.len() != "kt-app-about"@.len());
            reveal_strlit("kt-app-add-to-library");
            assert("kt-app-scan-book-folders"@.len() != "kt-app-add-to-library"@.len());
            reveal_strlit("kt-app-color-mode-auto");
            assert("kt-app-scan-book-folders"@.len() != "kt-app-color-mode-auto"@.len());
            reveal_strlit("kt-app-color-mode-dark");
            assert("kt-app-scan-book-folders"@.len() != "kt-app-color-mode-dark"@.len());
            reveal_strlit("kt-app-color-mode-light");
            assert("kt-app-scan-book-folders"@.len() != "kt-app-color-mode-light"@.len());
            reveal_strlit("kt-app-discord");
            assert("kt-app-scan-book-folders"@.len() != "kt-app-discord"@.len());
            reveal_strlit("kt-app-random-book");
            assert("kt-app-scan-book-folders"@.len() != "kt-app-random-book"@.len());
            reveal_strlit("kt-app-repository");
            assert("kt-app-scan-book-folders"@.len() != "kt-app-repository"@.len());
        },
        Item::OpenFile => {
            reveal_strlit("kt-app-open-file");
            reveal_strlit("kt-app-about");
            assert("kt-app-open-file"@.len() != "kt-app-about"@.len());
            reveal_strlit("kt-app-add-to-library");
            assert("kt-app-open-file"@.len() != "kt-app-add-to-library"@.len());
            reveal_strlit("kt-app-color-mode-auto");
            assert("kt-app-open-file"@.len() != "kt-app-color-mode-auto"@.len());
            reveal_strlit("kt-app-color-mode-dark");
            assert("kt-app-open-file"@.len() != "kt-app-color-mode-dark"@.len());
            reveal_strlit("kt-app-color-mode-light");
            assert("kt-app-open-file"@.len() != "kt-app-color-mode-light"@.len());
            reveal_strlit("kt-app-discord");
            assert("kt-app-open-file"@.len() != "kt-app-discord"@.len());
            reveal_strlit("kt-app-random-book");
            assert("kt-app-open-file"@.len() != "kt-app-random-book"@.len());
            reveal_strlit("kt-app-repository");
            assert("kt-app-open-file"@.len() != "kt-app-repository"@.len());
            reveal_strlit("kt-app-scan-book-folders");
            assert("kt-app-open-file"@.len() != "kt-app-scan-book-folders"@.len());
        },
        Item::AddMockBooksLandscape => {
            reveal_strlit("kt-app-add-mock-books-landscape");
            reveal_strlit("kt-app-about");
            assert("kt-app-add-mock-books-landscape"@.len() != "kt-app-about"@.len());
            reveal_strlit("kt-app-add-to-library");
            assert("kt-app-add-mock-books-landscape"@.len() != "kt-app-add-to-library"@.len());
            reveal_strlit("kt-app-color-mode-auto");
            assert("kt-app-add-mock-books-landscape"@.len() != "kt-app-color-mode-auto"@.len());
            reveal_strlit("kt-app-color-mode-dark");
            assert("kt-app-add-mock-books-landscape"@.len() != "kt-app-color-mode-dark"@.len());
            reveal_strlit("kt-app-color-mode-light");
            assert("kt-app-add-mock-books-landscape"@.len() != "kt-app-color-mode-light"@.len());
            reveal_strlit("kt-app-discord");
            assert("kt-app-add-mock-books-landscape"@.len() != "kt-app-discord"@.len());
            reveal_strlit("kt-app-random-book");
            assert("kt-app-add-mock-books-landscape"@.len() != "kt-app-random-book"@.len());
            reveal_strlit("kt-app-repository");
            assert("kt-app-add-mock-books-landscape"@.len() != "kt-app-repository"@.len());
            reveal_strlit("kt-app-scan-book-folders");
            assert("kt-app-add-mock-books-landscape"@.len() != "kt-app-scan-book-folders"@.len());
            reveal_strlit("kt-app-open-file");
            assert("kt-app-add-mock-books-landscape"@.len() != "kt-app-open-file"@.len());
        },
        Item::AddMockBooksPortrait => {
            reveal_strlit("kt-app-add-mock-books-portrait");
            reveal_strlit("kt-app-about");
            assert("kt-app-add-mock-books-portrait"@.len() != "kt-app-about"@.len());
            reveal_strlit("kt-app-add-to-library");
            assert("kt-app-add-mock-books-portrait"@.len() != "kt-app-add-to-library"@.len());
            reveal_strlit("kt-app-color-mode-auto");
            assert("kt-app-add-mock-books-portrait"@.len() != "kt-app-color-mode-auto"@.len());
            reveal_strlit("kt-app-color-mode-dark");
            assert("kt-app-add-mock-books-portrait"@.len() != "kt-app-color-mode-dark"@.len());
            reveal_strlit("kt-app-color-mode-light");
            assert("kt-app-add-mock-books-portrait"@.len() != "kt-app-color-mode-light"@.len());
            reveal_strlit("kt-app-discord");
            assert("kt-app-add-mock-books-portrait"@.len() != "kt-app-discord"@.len());
            reveal_strlit("kt-app-random-book");
            assert("kt-app-add-mock-books-portrait"@.len() != "kt-app-random-book"@.len());
            reveal_strlit("kt-app-repository");
            assert("kt-app-add-mock-books-portrait"@.len() != "kt-app-repository"@.len());
            reveal_strlit("kt-app-scan-book-folders");
            assert("kt-app-add-mock-books-portrait"@.len() != "kt-app-scan-book-folders"@.len());
            reveal_strlit("kt-app-open-file");
            assert("kt-app-add-mock-books-portrait"@.len() != "kt-app-open-file"@.len());
            reveal_strlit("kt-app-add-mock-books-landscape");
            assert("kt-app-add-mock-books-portrait"@.len() != "kt-app-add-mock-books-landscape"@.len());
        },
        Item::RemoveAllBooks => {
            reveal_strlit("kt-app-remove-all-books");
            reveal_strlit("kt-app-about");
            assert("kt-app-remove-all-books"@.len() != "kt-app-about"@.len());
            reveal_strlit("kt-app-add-to-library");
            assert("kt-app-remove-all-books"@.len() != "kt-app-add-to-library"@.len());
            reveal_strlit("kt-app-color-mode-auto");
            assert("kt-app-remove-all-books"@.len() != "kt-app-color-mode-auto"@.len());
            reveal_strlit("kt-app-color-mode-dark");
            assert("kt-app-remove-all-books"@.len() != "kt-app-color-mode-dark"@.len());
            reveal_strlit("kt-app-color-mode-light");
            assert("kt-app-remove-all-books"@[7] != "kt-app-color-mode-light"@[7]);
            reveal_strlit("kt-app-discord");
            assert("kt-app-remove-all-books"@.len() != "kt-app-discord"@.len());
            reveal_strlit("kt-app-random-book");
            assert("kt-app-remove-all-books"@.len() != "kt-app-random-book"@.len());
            reveal_strlit("kt-app-repository");
            assert("kt-app-remove-all-books"@.len() != "kt-app-repository"@.len());
            reveal_strlit("kt-app-scan-book-folders");
            assert("kt-app-remove-all-books"@.len() != "kt-app-scan-book-folders"@.len());
            reveal_strlit("kt-app-open-file");
            assert("kt-app-remove-all-books"@.len() != "kt-app-open-file"@.len());
            reveal_strlit("kt-app-add-mock-books-landscape");
            assert("kt-app-remove-all-books"@.len() != "kt-app-add-mock-books-landscape"@.len());
            reveal_strlit("kt-app-add-mock-books-portrait");
            assert("kt-app-remove-all-books"@.len() != "kt-app-add-mock-books-portrait"@.len());
        },
    }
}

impl Item {
    /// The text that identifies the item.
    pub fn id(&self) -> (r: &'static str)
        ensures
            r@ == item_id(*self),
    {
        match self {
            Item::About => "kt-app-about",
            Item::AddToLibrary => "kt-app-add-to-library",
            Item::ColorModeAuto => "kt-app-color-mode-auto",
            Item::ColorModeDark => "kt-app-color-mode-dark",
            Item::ColorModeLight => "kt-app-color-mode-light",
            Item::Discord => "kt-app-discord",
            Item::RandomBook => "kt-app-random-book",
            Item::Repository => "kt-app-repository",
            Item::ScanBookFolders => "kt-app-scan-book-folders",
            Item::OpenFile => "kt-app-open-file",
            Item::AddMockBooksLandscape => "kt-app-add-mock-books-landscape",
            Item::AddMockBooksPortrait => "kt-app-add-mock-books-portrait",
            Item::RemoveAllBooks => "kt-app-remove-all-books",
        }
    }

    /// The text that identifies the item, as an owned string.
    pub fn to_string(&self) -> (r: String)
        ensures
            r@ == item_id(*self),
    {
        owned(self.id())
    }

    /// The item that `id` identifies, if any.
    pub fn from_id(id: &str) -> (r: Option<Item>)
        ensures
            r == item_from_id(id@),
    {
        if same_text(id, "kt-app-about") {
            Some(Item::About)
        } else if same_text(id, "kt-app-add-to-library") {
            Some(Item::AddToLibrary)
        } else if same_text(id, "kt-app-color-mode-auto") {
            Some(Item::ColorModeAuto)
        } else if same_text(id, "kt-app-color-mode-dark") {
            Some(Item::ColorModeDark)
        } else if same_text(id, "kt-app-color-mode-light") {
            Some(Item::ColorModeLight)
        } else if same_text(id, "kt-app-discord") {
            Some(Item::Discord)
        } else if same_text(id, "kt-app-random-book") {
            Some(Item::RandomBook)
        } else if same_text(id, "kt-app-repository") {
            Some(Item::Repository)
        } else if same_text(id, "kt-app-scan-book-folders") {
            Some(Item::ScanBookFolders)
        } else if same_text(id, "kt-app-open-file") {
            Some(Item::OpenFile)
        } else if same_text(id, "kt-app-add-mock-books-landscape") {
            Some(Item::AddMockBooksLandscape)
        } else if same_text(id, "kt-app-add-mock-books-portrait") {
            Some(Item::AddMockBooksPortrait)
        } else if same_text(id, "kt-app-remove-all-books") {
            Some(Item::RemoveAllBooks)
        } else {
            None
        }
    }

}

/// What choosing an item of the application menu does.
#[derive(Clone, Copy, Debug, PartialEq, Eq, Structural)]
pub enum Action {
    /// Nothing: the about box opens by itself.
    Nothing,
    AddToLibrary,
    SetColorMode(ColorMode),
    OpenDiscord,
    OpenRandomBook,
    OpenRepository,
    ScanBookFolders,
    OpenFile,
    AddMockBooks(Orientation),
    RemoveAllBooks,
}

/// The action of each item.
pub open spec fn action_of(item: Item) -> Action {
    match item {
        Item::About => Action::Nothing,
        Item::AddToLibrary => Action::AddToLibrary,
        Item::ColorModeAuto => Action::SetColorMode(ColorMode::Auto),
        Item::ColorModeDark => Action::SetColorMode(ColorMode::Dark),
        Item::ColorModeLight => Action::SetColorMode(ColorMode::Light),
        Item::Discord => Action::OpenDiscord,
        Item::RandomBook => Action::OpenRandomBook,
        Item::Repository => Action::OpenRepository,
        Item::ScanBookFolders => Action::ScanBookFolders,
        Item::OpenFile => Action::OpenFile,
        Item::AddMockBooksLandscape => Action::AddMockBooks(Orientation::Landscape),
        Item::AddMockBooksPortrait => Action::AddMockBooks(Orientation::Portrait),
        Item::RemoveAllBooks => Action::RemoveAllBooks,
    }
}

impl Item {
    /// What choosing the item does.
    pub fn action(&self) -> (a: Action)
        ensures
            a == action_of(*self),
    {
        match self {
            Item::About => Action::Nothing,
            Item::AddToLibrary => Action::AddToLibrary,
            Item::ColorModeAuto => Action::SetColorMode(ColorMode::Auto),
            Item::ColorModeDark => Action::SetColorMode(ColorMode::Dark),
            Item::ColorModeLight => Action::SetColorMode(ColorMode::Light),
            Item::Discord => Action::OpenDiscord,
            Item::RandomBook => Action::OpenRandomBook,
            Item::Repository => Action::OpenRepository,
            Item::ScanBookFolders => Action::ScanBookFolders,
            Item::OpenFile => Action::OpenFile,
            Item::AddMockBooksLandscape => Action::AddMockBooks(Orientation::Landscape),
            Item::AddMockBooksPortrait => Action::AddMockBooks(Orientation::Portrait),
            Item::RemoveAllBooks => Action::RemoveAllBooks,
        }
    }

    /// The action of the item that the menu id `id` names; nothing for an id of no item.
    pub fn action_for_id(id: &str) -> (a: Action)
        ensures
            item_from_id(id@) is Some ==> a == action_of(item_from_id(id@)->0),
            item_from_id(id@) is None ==> a == Action::Nothing,
    {
        match Item::from_id(id) {
            Some(item) => item.action(),
            None => Action::Nothing,
        }
    }
}

/// The platforms whose menus differ.
#[derive(Clone, Copy, Debug, PartialEq, Eq, Structural)]
pub enum Platform {
    Linux,
    Macos,
    Windows,
}

/// The File menu: opening files, adding to and scanning the library, and, except on Linux,
/// quitting.
pub open spec fn file_menu_of(platform: Platform) -> EntryView {
    submenu_view(
        "File"@,
        seq![
            item_view(item_id(Item::OpenFile), "Open file"@),
            item_view(item_id(Item::AddToLibrary), "Add to library"@),
            EntryView::Separator,
            item_view(item_id(Item::ScanBookFolders), "Scan book folders"@),
        ] + if platform == Platform::Linux {
            Seq::empty()
        } else {
            seq![EntryView::Separator, EntryView::Quit]
        },
    )
}

/// The Read menu.
pub open spec fn read_menu_of() -> EntryView {
    submenu_view("Read"@, seq![item_view(item_id(Item::RandomBook), "Random book"@)])
}

/// The Color mode menu, with the current mode checked.
pub open spec fn color_mode_menu_of(current: ColorMode) -> EntryView {
    submenu_view(
        "Color mode"@,
        seq![
            check_view(item_id(Item::ColorModeAuto), "Auto"@, current == ColorMode::Auto),
            check_view(item_id(Item::ColorModeLight), "Light"@, current == ColorMode::Light),
            check_view(item_id(Item::ColorModeDark), "Dark"@, current == ColorMode::Dark),
        ],
    )
}

/// The View menu.
pub open spec fn view_menu_of(current: ColorMode) -> EntryView {
    submenu_view("View"@, seq![color_mode_menu_of(current)])
}

/// The about box: the license is not shown on macOS.
pub open spec fn about_of(platform: Platform, license: Seq<char>) -> EntryView {
    EntryView::About {
        text: "About"@,
        name: "Kotori"@,
        version: VERSION@,
        copyright: "Copyright \u{a9} 2024 Andrew Ferreira"@,
        license: if platform == Platform::Macos { None } else { Some(license) },
    }
}

/// The Help menu.
pub open spec fn help_menu_of(platform: Platform, license: Seq<char>) -> EntryView {
    submenu_view(
        "Help"@,
        seq![
            item_view(item_id(Item::Discord), "Discord"@),
            item_view(item_id(Item::Repository), "Repository"@),
            about_of(platform, license),
        ],
    )
}

/// The Developer menu of development builds.
pub open spec fn dev_menu_of() -> EntryView {
    submenu_view(
        "Developer"@,
        seq![
            submenu_view(
                "Mocks"@,
                seq![
                    item_view(item_id(Item::AddMockBooksPortrait), "Portrait"@),
                    item_view(item_id(Item::AddMockBooksLandscape), "Landscape"@),
                ],
            ),
            EntryView::Separator,
            item_view(item_id(Item::RemoveAllBooks), "Remove all books"@),
        ],
    )
}

/// The application menu: File, Read, View and Help, and Developer in development builds.
pub open spec fn app_menu_of(platform: Platform, devtools: bool, current: ColorMode, license: Seq<char>) -> Seq<
    EntryView,
> {
    seq![file_menu_of(platform), read_menu_of(), view_menu_of(current), help_menu_of(platform, license)]
        + if devtools {
        seq![dev_menu_of()]
    } else {
        Seq::empty()
    }
}

/// The application menu.
pub struct AppMenu;

impl AppMenu {
    /// Builds the application menu for the platform, with the current color mode checked.
    /// `devtools` adds the Developer menu; `license` is the license shown in the about box.
    pub fn build(platform: Platform, devtools: bool, current: ColorMode, license: &str) -> (m: Menu)
        ensures
            m@ == app_menu_of(platform, devtools, current, license@),
    {
        let mut entries: Vec<MenuEntry> = Vec::new();
        push_entry(&mut entries, MenuEntry::Submenu(FileMenu::new(platform).0));
        push_entry(&mut entries, MenuEntry::Submenu(ReadMenu::new().0));
        push_entry(&mut entries, MenuEntry::Submenu(ViewMenu::new(current).0));
        push_entry(&mut entries, MenuEntry::Submenu(HelpMenu::new(platform, license).0));
        if devtools {
            push_entry(&mut entries, MenuEntry::Submenu(DevMenu::new().0));
        }
        proof {
            assert(entries_view(entries@) =~= app_menu_of(platform, devtools, current, license@));
        }
        Menu::new(entries)
    }
}

/// An enabled submenu without an id of its own, as a submenu.
fn plain_submenu(text: &str, entries: Vec<MenuEntry>) -> (m: Submenu)
    ensures
        entry_view(MenuEntry::Submenu(m)) == submenu_view(text@, entries_view(entries@)),
{
    Submenu { id: None, text: owned(text), enabled: true, entries }
}

/// The File menu.
pub struct FileMenu(pub Submenu);

impl FileMenu {
    pub fn new(platform: Platform) -> (m: FileMenu)
        ensures
            entry_view(MenuEntry::Submenu(m.0)) == file_menu_of(platform),
    {
        let mut entries: Vec<MenuEntry> = Vec::new();
        push_entry(&mut entries, MenuEntry::item(Item::OpenFile.to_string(), "Open file"));
        push_entry(&mut entries, MenuEntry::item(Item::AddToLibrary.to_string(), "Add to library"));
        push_entry(&mut entries, MenuEntry::separator());
        push_entry(&mut entries, MenuEntry::item(Item::ScanBookFolders.to_string(), "Scan book folders"));
        if platform != Platform::Linux {
            push_entry(&mut entries, MenuEntry::separator());
            push_entry(&mut entries, MenuEntry::quit());
        }
        let ghost items = entries_view(entries@);
        proof {
            assert(items =~= file_menu_of(platform)->Submenu_entries);
        }
        FileMenu(plain_submenu("File", entries))
    }
}

/// The Read menu.
pub struct ReadMenu(pub Submenu);

impl ReadMenu {
    pub fn new() -> (m: ReadMenu)
        ensures
            entry_view(MenuEntry::Submenu(m.0)) == read_menu_of(),
    {
        let mut entries: Vec<MenuEntry> = Vec::new();
        push_entry(&mut entries, MenuEntry::item(Item::RandomBook.to_string(), "Random book"));
        proof {
            assert(entries_view(entries@) =~= read_menu_of()->Submenu_entries);
        }
        ReadMenu(plain_submenu("Read", entries))
    }
}

/// The View menu.
pub struct ViewMenu(pub Submenu);

impl ViewMenu {
    pub fn new(current: ColorMode) -> (m: ViewMenu)
        ensures
            entry_view(MenuEntry::Submenu(m.0)) == view_menu_of(current),
    {
        let mut entries: Vec<MenuEntry> = Vec::new();
        push_entry(&mut entries, MenuEntry::Submenu(ViewMenu::color_mode(current)));
        proof {
            assert(entries_view(entries@) =~= view_menu_of(current)->Submenu_entries);
        }
        ViewMenu(plain_submenu("View", entries))
    }

    /// The Color mode menu, with `current` checked.
    pub fn color_mode(current: ColorMode) -> (m: Submenu)
        ensures
            entry_view(MenuEntry::Submenu(m)) == color_mode_menu_of(current),
    {
        let mut entries: Vec<MenuEntry> = Vec::new();
        push_entry(&mut entries, MenuEntry::check(Item::ColorModeAuto.to_string(), "Auto", current == ColorMode::Auto));
        push_entry(&mut entries, MenuEntry::check(Item::ColorModeLight.to_string(), "Light", current == ColorMode::Light));
        push_entry(&mut entries, MenuEntry::check(Item::ColorModeDark.to_string(), "Dark", current == ColorMode::Dark));
        proof {
            assert(entries_view(entries@) =~= color_mode_menu_of(current)->Submenu_entries);
        }
        plain_submenu("Color mode", entries)
    }
}

/// The Help menu.
pub struct HelpMenu(pub Submenu);

impl HelpMenu {
    pub fn new(platform: Platform, license: &str) -> (m: HelpMenu)
        ensures
            entry_view(MenuEntry::Submenu(m.0)) == help_menu_of(platform, license@),
    {
        let mut entries: Vec<MenuEntry> = Vec::new();
        push_entry(&mut entries, MenuEntry::item(Item::Discord.to_string(), "Discord"));
        push_entry(&mut entries, MenuEntry::item(Item::Repository.to_string(), "Repository"));
        push_entry(&mut entries, HelpMenu::about(platform, license));
        proof {
            assert(entries_view(entries@) =~= help_menu_of(platform, license@)->Submenu_entries);
        }
        HelpMenu(plain_submenu("Help", entries))
    }

    /// The entry that opens the about box.
    pub fn about(platform: Platform, license: &str) -> (e: MenuEntry)
        ensures
            entry_view(e) == about_of(platform, license@),
    {
        let metadata = AboutMetadata {
            name: owned("Kotori"),
            version: owned(VERSION),
            copyright: owned("Copyright \u{a9} 2024 Andrew Ferreira"),
            license: if platform == Platform::Macos { None } else { Some(owned(license)) },
        };
        MenuEntry::Predefined(Predefined::About { text: owned("About"), metadata })
    }
}

/// The Developer menu.
pub struct DevMenu(pub Submenu);

impl DevMenu {
    pub fn new() -> (m: DevMenu)
        ensures
            entry_view(MenuEntry::Submenu(m.0)) == dev_menu_of(),
    {
        let mut mocks: Vec<MenuEntry> = Vec::new();
        push_entry(&mut mocks, MenuEntry::item(Item::AddMockBooksPortrait.to_string(), "Portrait"));
        push_entry(&mut mocks, MenuEntry::item(Item::AddMockBooksLandscape.to_string(), "Landscape"));
        let mut entries: Vec<MenuEntry> = Vec::new();
        push_entry(&mut entries, MenuEntry::submenu("Mocks", mocks));
        push_entry(&mut entries, MenuEntry::separator());
        push_entry(&mut entries, MenuEntry::item(Item::RemoveAllBooks.to_string(), "Remove all books"));
        proof {
            assert(entries_view(mocks@) =~= dev_menu_of()->Submenu_entries[0]->Submenu_entries);
            assert(entries_view(entries@) =~= dev_menu_of()->Submenu_entries);
        }
        DevMenu(plain_submenu("Developer", entries))
    }
}

/// The action of the item that an entry's id names.
pub open spec fn entry_action(entry: EntryView) -> Option<Action> {
    match entry {
        EntryView::Item { id, .. } => match item_from_id(id) {
            Some(item) => Some(action_of(item)),
            None => None,
        },
        EntryView::Check { id, .. } => match item_from_id(id) {
            Some(item) => Some(action_of(item)),
            None => None,
        },
        _ => None,
    }
}

/// In the Color mode menu, whatever the current mode: each entry sets a color mode when
/// chosen, and it is checked exactly when the mode it sets is the current one; the entry
/// labelled "Auto" sets the automatic mode, "Light" the light one and "Dark" the dark one; and
/// every mode can be chosen.
pub proof fn law_color_mode_entries_set_their_mode(current: ColorMode)
    ensures
        forall|k: int| #![trigger color_mode_menu_of(current)->Submenu_entries[k]]
            0 <= k < color_mode_menu_of(current)->Submenu_entries.len() ==> {
            let e = color_mode_menu_of(current)->Submenu_entries[k];
            &&& e is Check
            &&& entry_action(e) matches Some(Action::SetColorMode(m))
            &&& (e->Check_checked <==> entry_action(e) == Some(Action::SetColorMode(current)))
            &&& e->Check_text == "Auto"@ ==> entry_action(e) == Some(Action::SetColorMode(ColorMode::Auto))
            &&& e->Check_text == "Light"@ ==> entry_action(e) == Some(Action::SetColorMode(ColorMode::Light))
            &&& e->Check_text == "Dark"@ ==> entry_action(e) == Some(Action::SetColorMode(ColorMode::Dark))
        },
        exists|k: int| 0 <= k < color_mode_menu_of(current)->Submenu_entries.len()
            && entry_action(#[trigger] color_mode_menu_of(current)->Submenu_entries[k]) == Some(Action::SetColorMode(ColorMode::Auto)),
        exists|k: int| 0 <= k < color_mode_menu_of(current)->Submenu_entries.len()
            && entry_action(#[trigger] color_mode_menu_of(current)->Submenu_entries[k]) == Some(Action::SetColorMode(ColorMode::Light)),
        exists|k: int| 0 <= k < color_mode_menu_of(current)->Submenu_entries.len()
            && entry_action(#[trigger] color_mode_menu_of(current)->Submenu_entries[k]) == Some(Action::SetColorMode(ColorMode::Dark)),
{
    lemma_item_id_round_trip(Item::ColorModeAuto);
    lemma_item_id_round_trip(Item::ColorModeLight);
    lemma_item_id_round_trip(Item::ColorModeDark);
    reveal_strlit("Auto");
    reveal_strlit("Light");
    reveal_strlit("Dark");
    assert("Auto"@[0] != "Light"@[0] && "Auto"@[0] != "Dark"@[0] && "Light"@[0] != "Dark"@[0]);
    let entries = color_mode_menu_of(current)->Submenu_entries;
    assert(entries[0] == check_view(item_id(Item::ColorModeAuto), "Auto"@, current == ColorMode::Auto));
    assert(entries[1] == check_view(item_id(Item::ColorModeLight), "Light"@, current == ColorMode::Light));
    assert(entries[2] == check_view(item_id(Item::ColorModeDark), "Dark"@, current == ColorMode::Dark));
    assert(entry_action(entries[0]) == Some(Action::SetColorMode(ColorMode::Auto)));
    assert(entry_action(entries[1]) == Some(Action::SetColorMode(ColorMode::Light)));
    assert(entry_action(entries[2]) == Some(Action::SetColorMode(ColorMode::Dark)));
}

/// The text an item or check entry shows.
pub open spec fn entry_text(entry: EntryView) -> Seq<char> {
    match entry {
        EntryView::Item { text, .. } => text,
        EntryView::Check { text, .. } => text,
        _ => Seq::empty(),
    }
}

/// An item or check entry does, when chosen, what its text announces.
pub open spec fn acts_as_labelled(e: EntryView) -> bool {
    let t = entry_text(e);
    let a = entry_action(e);
    (e is Item || e is Check) ==> {
        &&& a is Some
        &&& t == "Open file"@ ==> a == Some(Action::OpenFile)
        &&& t == "Add to library"@ ==> a == Some(Action::AddToLibrary)
        &&& t == "Scan book folders"@ ==> a == Some(Action::ScanBookFolders)
        &&& t == "Random book"@ ==> a == Some(Action::OpenRandomBook)
        &&& t == "Auto"@ ==> a == Some(Action::SetColorMode(ColorMode::Auto))
        &&& t == "Light"@ ==> a == Some(Action::SetColorMode(ColorMode::Light))
        &&& t == "Dark"@ ==> a == Some(Action::SetColorMode(ColorMode::Dark))
        &&& t == "Discord"@ ==> a == Some(Action::OpenDiscord)
        &&& t == "Repository"@ ==> a == Some(Action::OpenRepository)
        &&& t == "Portrait"@ ==> a == Some(Action::AddMockBooks(Orientation::Portrait))
        &&& t == "Landscape"@ ==> a == Some(Action::AddMockBooks(Orientation::Landscape))
        &&& t == "Remove all books"@ ==> a == Some(Action::RemoveAllBooks)
    }
}

/// Every entry of a list, and of the submenus in it, does what its text announces.
pub open spec fn all_act_as_labelled(entries: Seq<EntryView>) -> bool {
    forall|k: int| #![trigger entries[k]] 0 <= k < entries.len() ==> {
        &&& acts_as_labelled(entries[k])
        &&& entries[k] is Submenu ==> forall|j: int| #![trigger entries[k]->Submenu_entries[j]]
            0 <= j < entries[k]->Submenu_entries.len() ==> acts_as_labelled(entries[k]->Submenu_entries[j])
    }
}

proof fn lemma_labels_differ()
    ensures
        "Open file"@ != "Add to library"@,
        "Open file"@ != "Scan book folders"@,
        "Open file"@ != "Random book"@,
        "Open file"@ != "Auto"@,
        "Open file"@ != "Light"@,
        "Open file"@ != "Dark"@,
        "Open file"@ != "Discord"@,
        "Open file"@ != "Repository"@,
        "Open file"@ != "Portrait"@,
        "Open file"@ != "Landscape"@,
        "Open file"@ != "Remove all books"@,
        "Add to library"@ != "Scan book folders"@,
        "Add to library"@ != "Random book"@,
        "Add to library"@ != "Auto"@,
        "Add to library"@ != "Light"@,
        "Add to library"@ != "Dark"@,
        "Add to library"@ != "Discord"@,
        "Add to library"@ != "Repository"@,
        "Add to library"@ != "Portrait"@,
        "Add to library"@ != "Landscape"@,
        "Add to library"@ != "Remove all books"@,
        "Scan book folders"@ != "Random book"@,
        "Scan book folders"@ != "Auto"@,
        "Scan book folders"@ != "Light"@,
        "Scan book folders"@ != "Dark"@,
        "Scan book folders"@ != "Discord"@,
        "Scan book folders"@ != "Repository"@,
        "Scan book folders"@ != "Portrait"@,
        "Scan book folders"@ != "Landscape"@,
        "Scan book folders"@ != "Remove all books"@,
        "Random book"@ != "Auto"@,
        "Random book"@ != "Light"@,
        "Random book"@ != "Dark"@,
        "Random book"@ != "Discord"@,
        "Random book"@ != "Repository"@,
        "Random book"@ != "Portrait"@,
        "Random book"@ != "Landscape"@,
        "Random book"@ != "Remove all books"@,
        "Auto"@ != "Light"@,
        "Auto"@ != "Dark"@,
        "Auto"@ != "Discord"@,
        "Auto"@ != "Repository"@,
        "Auto"@ != "Portrait"@,
        "Auto"@ != "Landscape"@,
        "Auto"@ != "Remove all books"@,
        "Light"@ != "Dark"@,
        "Light"@ != "Discord"@,
        "Light"@ != "Repository"@,
        "Light"@ != "Portrait"@,
        "Light"@ != "Landscape"@,
        "Light"@ != "Remove all books"@,
        "Dark"@ != "Discord"@,
        "Dark"@ != "Repository"@,
        "Dark"@ != "Portrait"@,
        "Dark"@ != "Landscape"@,
        "Dark"@ != "Remove all books"@,
        "Discord"@ != "Repository"@,
        "Discord"@ != "Portrait"@,
        "Discord"@ != "Landscape"@,
        "Discord"@ != "Remove all books"@,
        "Repository"@ != "Portrait"@,
        "Repository"@ != "Landscape"@,
        "Repository"@ != "Remove all books"@,
        "Portrait"@ != "Landscape"@,
        "Portrait"@ != "Remove all books"@,
        "Landscape"@ != "Remove all books"@,
{
    reveal_strlit("Open file");
    reveal_strlit("Add to library");
    reveal_strlit("Scan book folders");
    reveal_strlit("Random book");
    reveal_strlit("Auto");
    reveal_strlit("Light");
    reveal_strlit("Dark");
    reveal_strlit("Discord");
    reveal_strlit("Repository");
    reveal_strlit("Portrait");
    reveal_strlit("Landscape");
    reveal_strlit("Remove all books");
    assert("Auto"@[0] != "Dark"@[0]);
    assert("Open file"@[0] != "Landscape"@[0]);
    assert("Open file"@.len() == 9);
    assert("Add to library"@.len() == 14);
    assert("Scan book folders"@.len() == 17);
    assert("Random book"@.len() == 11);
    assert("Auto"@.len() == 4);
    assert("Light"@.len() == 5);
    assert("Dark"@.len() == 4);
    assert("Discord"@.len() == 7);
    assert("Repository"@.len() == 10);
    assert("Portrait"@.len() == 8);
    assert("Landscape"@.len() == 9);
    assert("Remove all books"@.len() == 16);
}

/// Each entry of the application menu, and of its submenus, does what its text announces,
/// whatever the platform, the build and the current color mode: "Open file" opens a file,
/// "Random book" opens a random book, "Light" sets the light color mode, "Repository" opens
/// the repository, and so on for every item.
pub proof fn law_app_menu_entries_do_what_they_say(
    platform: Platform,
    devtools: bool,
    current: ColorMode,
    license: Seq<char>,
)
    ensures
        all_act_as_labelled(app_menu_of(platform, devtools, current, license)),
        all_act_as_labelled(color_mode_menu_of(current)->Submenu_entries),
        all_act_as_labelled(dev_menu_of()->Submenu_entries),
{
    lemma_labels_differ();
    lemma_item_id_round_trip(Item::OpenFile);
    lemma_item_id_round_trip(Item::AddToLibrary);
    lemma_item_id_round_trip(Item::ScanBookFolders);
    lemma_item_id_round_trip(Item::RandomBook);
    lemma_item_id_round_trip(Item::ColorModeAuto);
    lemma_item_id_round_trip(Item::ColorModeLight);
    lemma_item_id_round_trip(Item::ColorModeDark);
    lemma_item_id_round_trip(Item::Discord);
    lemma_item_id_round_trip(Item::Repository);
    lemma_item_id_round_trip(Item::AddMockBooksPortrait);
    lemma_item_id_round_trip(Item::AddMockBooksLandscape);
    lemma_item_id_round_trip(Item::RemoveAllBooks);
    let file = file_menu_of(platform)->Submenu_entries;
    assert(acts_as_labelled(file[0]) && acts_as_labelled(file[1]) && acts_as_labelled(file[3]));
    assert(all_act_as_labelled(file));
    let read = read_menu_of()->Submenu_entries;
    assert(acts_as_labelled(read[0]));
    assert(all_act_as_labelled(read));
    let colors = color_mode_menu_of(current)->Submenu_entries;
    assert(acts_as_labelled(colors[0]) && acts_as_labelled(colors[1]) && acts_as_labelled(colors[2]));
    assert(all_act_as_labelled(colors));
    let view = view_menu_of(current)->Submenu_entries;
    assert(all_act_as_labelled(view));
    let help = help_menu_of(platform, license)->Submenu_entries;
    assert(acts_as_labelled(help[0]) && acts_as_labelled(help[1]));
    assert(all_act_as_labelled(help));
    let mocks = dev_menu_of()->Submenu_entries[0]->Submenu_entries;
    assert(acts_as_labelled(mocks[0]) && acts_as_labelled(mocks[1]));
    let dev = dev_menu_of()->Submenu_entries;
    assert(acts_as_labelled(dev[2]));
    assert(all_act_as_labelled(dev));
    let top = app_menu_of(platform, devtools, current, license);
    assert forall|k: int| #![trigger top[k]] 0 <= k < top.len() implies {
        &&& acts_as_labelled(top[k])
        &&& top[k] is Submenu ==> forall|j: int| #![trigger top[k]->Submenu_entries[j]]
            0 <= j < top[k]->Submenu_entries.len() ==> acts_as_labelled(top[k]->Submenu_entries[j])
    } by {
        if k == 0 {
            assert(top[k] == file_menu_of(platform));
            assert(forall|j: int| 0 <= j < file.len() ==> acts_as_labelled(#[trigger] file[j]));
        } else if k == 1 {
            assert(top[k] == read_menu_of());
            assert(forall|j: int| 0 <= j < read.len() ==> acts_as_labelled(#[trigger] read[j]));
        } else if k == 2 {
            assert(top[k] == view_menu_of(current));
            assert(forall|j: int| 0 <= j < view.len() ==> acts_as_labelled(#[trigger] view[j]));
        } else if k == 3 {
            assert(top[k] == help_menu_of(platform, license));
            assert(forall|j: int| 0 <= j < help.len() ==> acts_as_labelled(#[trigger] help[j]));
        } else {
            assert(top[k] == dev_menu_of());
            assert(forall|j: int| 0 <= j < dev.len() ==> acts_as_labelled(#[trigger] dev[j]));
        }
    }
}

} // verus!
