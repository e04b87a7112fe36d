use kotori::image::Orientation;
use kotori::menu::app::{Action, AppMenu, Item as AppItem, Platform, ViewMenu};
use kotori::menu::layout::{CheckItem, Menu, MenuEntry, MenuItem, Predefined, Submenu};
use kotori::menu::library_book::{Context as BookContext, Item as BookItem, LibraryBookContextMenu};
use kotori::menu::reader::{Item as ReaderItem, ReaderMenu};
use kotori::menu::reader_page::{Context as PageContext, Item as PageItem, ReaderPageContextMenu};
use kotori::model::Book;
use kotori::window::{reader_menu_state, ColorMode};

fn submenu(entry: &MenuEntry) -> &Submenu {
    match entry {
        MenuEntry::Submenu(menu) => menu,
        other => panic!("not a submenu: {other:?}"),
    }
}

fn item(entry: &MenuEntry) -> &MenuItem {
    match entry {
        MenuEntry::Item(item) => item,
        other => panic!("not an item: {other:?}"),
    }
}

fn check(entry: &MenuEntry) -> &CheckItem {
    match entry {
        MenuEntry::Check(item) => item,
        other => panic!("not a check item: {other:?}"),
    }
}

fn texts(entries: &[MenuEntry]) -> Vec<String> {
    entries
        .iter()
        .map(|e| match e {
            MenuEntry::Item(i) => i.text.clone(),
            MenuEntry::Check(c) => c.text.clone(),
            MenuEntry::Submenu(s) => s.text.clone(),
            MenuEntry::Predefined(Predefined::Separator) => "-".to_string(),
            MenuEntry::Predefined(Predefined::Quit) => "quit".to_string(),
            MenuEntry::Predefined(Predefined::About { text, .. }) => text.clone(),
        })
        .collect()
}

#[test]
fn app_menu_item_ids_round_trip() {
    let items = [
        AppItem::About,
        AppItem::AddToLibrary,
        AppItem::ColorModeAuto,
        AppItem::ColorModeDark,
        AppItem::ColorModeLight,
        AppItem::Discord,
        AppItem::RandomBook,
        AppItem::Repository,
        AppItem::ScanBookFolders,
        AppItem::OpenFile,
        AppItem::AddMockBooksLandscape,
        AppItem::AddMockBooksPortrait,
        AppItem::RemoveAllBooks,
    ];
    for it in items {
        assert_eq!(AppItem::from_id(&it.to_string()), Some(it));
    }
    assert_eq!(AppItem::RandomBook.id(), "kt-app-random-book");
    assert_eq!(AppItem::from_id("kt-app-nothing"), None);
}

#[test]
fn context_menu_item_ids_round_trip() {
    for it in [BookItem::MarkAsRead, BookItem::MarkAsUnread, BookItem::OpenBook, BookItem::OpenBookFolder, BookItem::RemoveBook] {
        assert_eq!(BookItem::from_id(&it.to_menu_id()), Some(it));
    }
    assert_eq!(BookItem::MarkAsRead.to_menu_id(), "kt-ctx-library-book-mark-as-read");
    for it in [PageItem::DeletePage, PageItem::SetAsCover] {
        assert_eq!(PageItem::from_id(&it.to_string()), Some(it));
    }
    assert_eq!(PageItem::DeletePage.id(), "kt-ctx-reader-page-delete-page");
    assert_eq!(PageItem::from_id("delete-page"), None);
}

#[test]
fn reader_menu_ids_carry_the_window_id() {
    assert_eq!(ReaderItem::prefix(1), "kt-reader-1-");
    assert_eq!(ReaderItem::Close.to_menu_id(1), "kt-reader-1-close");
    assert_eq!(ReaderItem::CopyBookPathToClipboard.to_menu_id(23), "kt-reader-23-copy-book-path-to-clipboard");
    assert_eq!(ReaderItem::from_menu_id("kt-reader-1-close", 1), Some(ReaderItem::Close));
    assert_eq!(ReaderItem::from_menu_id("kt-reader-12-close", 1), None);
    assert_eq!(ReaderItem::from_menu_id("kt-reader-1-close", 12), None);
    assert_eq!(ReaderItem::from_menu_id("kt-reader-1-close-all", 1), Some(ReaderItem::CloseAll));
    assert_eq!(ReaderItem::from_id("close-others"), Some(ReaderItem::CloseOthers));
    assert_eq!(ReaderItem::from_id("kt-reader-1-close"), None);
}

#[test]
fn app_menu_has_its_submenus_in_order() {
    let menu = AppMenu::build(Platform::Windows, false, ColorMode::Auto, "MIT");
    assert_eq!(texts(&menu.entries), vec!["File", "Read", "View", "Help"]);
    let file = submenu(&menu.entries[0]);
    assert_eq!(texts(&file.entries), vec!["Open file", "Add to library", "-", "Scan book folders", "-", "quit"]);
    assert_eq!(item(&file.entries[0]).id, "kt-app-open-file");
    let read = submenu(&menu.entries[1]);
    assert_eq!(item(&read.entries[0]).id, "kt-app-random-book");

    let dev = AppMenu::build(Platform::Linux, true, ColorMode::Auto, "MIT");
    assert_eq!(texts(&dev.entries), vec!["File", "Read", "View", "Help", "Developer"]);
    let file = submenu(&dev.entries[0]);
    assert_eq!(texts(&file.entries), vec!["Open file", "Add to library", "-", "Scan book folders"]);
    let developer = submenu(&dev.entries[4]);
    assert_eq!(texts(&developer.entries), vec!["Mocks", "-", "Remove all books"]);
    assert_eq!(texts(&submenu(&developer.entries[0]).entries), vec!["Portrait", "Landscape"]);
}

#[test]
fn color_mode_menu_checks_the_current_mode() {
    let menu = ViewMenu::color_mode(ColorMode::Dark);
    assert_eq!(menu.text, "Color mode");
    let checks: Vec<(String, bool)> = menu.entries.iter().map(|e| (check(e).text.clone(), check(e).checked)).collect();
    assert_eq!(
        checks,
        vec![("Auto".to_string(), false), ("Light".to_string(), false), ("Dark".to_string(), true)]
    );
    assert_eq!(check(&menu.entries[1]).id, "kt-app-color-mode-light");
}

#[test]
fn about_box_hides_the_license_on_macos() {
    let about = |platform| {
        let menu = AppMenu::build(platform, false, ColorMode::Light, "MIT");
        let help = submenu(&menu.entries[3]);
        match &help.entries[2] {
            MenuEntry::Predefined(Predefined::About { text, metadata }) => {
                assert_eq!(text, "About");
                assert_eq!(metadata.name, "Kotori");
                assert_eq!(metadata.version, "0.1.0");
                assert_eq!(metadata.copyright, "Copyright \u{a9} 2024 Andrew Ferreira");
                metadata.license.clone()
            }
            other => panic!("not the about box: {other:?}"),
        }
    };
    assert_eq!(about(Platform::Macos), None);
    assert_eq!(about(Platform::Windows), Some("MIT".to_string()));
}

#[test]
fn checking_an_item_in_a_nested_submenu() {
    let mut menu = AppMenu::build(Platform::Linux, false, ColorMode::Auto, "MIT");
    menu.set_item_checked("kt-app-color-mode-dark", true);
    menu.set_item_checked("kt-app-color-mode-auto", false);
    let modes = submenu(&submenu(&menu.entries[2]).entries[0]);
    let checked: Vec<bool> = modes.entries.iter().map(|e| check(e).checked).collect();
    assert_eq!(checked, vec![false, false, true]);
}

#[test]
fn setting_an_unknown_item_changes_nothing() {
    let mut menu = AppMenu::build(Platform::Windows, true, ColorMode::Light, "MIT");
    let before = AppMenu::build(Platform::Windows, true, ColorMode::Light, "MIT");
    menu.set_item_checked("kt-app-nothing", true);
    menu.set_item_enabled("kt-app-nothing", false);
    assert_eq!(menu, before);
}

#[test]
fn enabling_finds_items_and_submenus_by_id() {
    let mut menu = Menu::new(vec![
        MenuEntry::item("a".to_string(), "A"),
        MenuEntry::Submenu(Submenu {
            id: Some("sub".to_string()),
            text: "Sub".to_string(),
            enabled: true,
            entries: vec![MenuEntry::item("b".to_string(), "B")],
        }),
    ]);
    menu.set_item_enabled("b", false);
    assert!(!item(&submenu(&menu.entries[1]).entries[0]).enabled);
    menu.set_item_enabled("sub", false);
    assert!(!submenu(&menu.entries[1]).enabled);
    assert!(!item(&submenu(&menu.entries[1]).entries[0]).enabled);
    menu.set_item_enabled("a", false);
    assert!(!item(&menu.entries[0]).enabled);
}

#[test]
fn submenu_enables_itself_when_it_has_the_id() {
    let mut sub = Submenu {
        id: Some("sub".to_string()),
        text: "Sub".to_string(),
        enabled: true,
        entries: vec![MenuEntry::check("c".to_string(), "C", false)],
    };
    sub.set_item_enabled("sub", false);
    assert!(!sub.enabled);
    assert!(check(&sub.entries[0]).enabled);
    sub.set_item_checked("c", true);
    assert!(check(&sub.entries[0]).checked);
    sub.set_item_enabled("c", false);
    assert!(!check(&sub.entries[0]).enabled);
}

#[test]
fn reader_menu_is_built_for_its_window() {
    let menu = ReaderMenu::build(7);
    assert_eq!(texts(&menu.entries), vec!["File"]);
    let file = submenu(&menu.entries[0]);
    assert_eq!(
        texts(&file.entries),
        vec!["Close", "Close all", "Close others", "-", "Add to library", "-", "Copy book path", "Open book folder"]
    );
    assert_eq!(item(&file.entries[4]).id, "kt-reader-7-add-book-to-library");
    assert!(file.entries.iter().all(|e| !matches!(e, MenuEntry::Item(i) if !i.enabled)));
}

#[test]
fn reader_menu_update_enables_by_state() {
    let mut menu = ReaderMenu::build(3);
    ReaderMenu::update(&mut menu, 3, reader_menu_state(true, 1));
    let file = submenu(&menu.entries[0]);
    assert!(!item(&file.entries[4]).enabled);
    assert!(!item(&file.entries[2]).enabled);
    assert!(item(&file.entries[0]).enabled);

    ReaderMenu::update(&mut menu, 3, reader_menu_state(false, 2));
    let file = submenu(&menu.entries[0]);
    assert!(item(&file.entries[4]).enabled);
    assert!(item(&file.entries[2]).enabled);
}

#[test]
fn reader_menu_update_for_another_window_changes_nothing() {
    let mut menu = ReaderMenu::build(3);
    ReaderMenu::update(&mut menu, 4, reader_menu_state(true, 1));
    assert_eq!(menu, ReaderMenu::build(3));
}

fn book(read: bool) -> Book {
    Book {
        id: 5,
        path: "/books/a.cbz".to_string(),
        title: "a".to_string(),
        cover: "001.jpg".to_string(),
        rating: 3,
        read,
    }
}

#[test]
fn library_book_menu_marks_the_book_state() {
    let menu = LibraryBookContextMenu::new(BookContext { book: book(true) });
    assert_eq!(texts(&menu.menu.entries), vec!["Open", "Remove", "-", "Mark as", "-", "Open folder"]);
    let marks = submenu(&menu.menu.entries[3]);
    assert_eq!(texts(&marks.entries), vec!["Read", "Unread"]);
    assert!(check(&marks.entries[0]).checked);
    assert!(!check(&marks.entries[1]).checked);
    assert_eq!(menu.ctx.book.id, 5);
}

#[test]
fn library_book_menu_update_matches_a_new_menu() {
    let mut menu = LibraryBookContextMenu::new(BookContext { book: book(true) });
    menu.update(&BookContext { book: book(false) });
    let fresh = LibraryBookContextMenu::new(BookContext { book: book(false) });
    assert_eq!(menu.menu, fresh.menu);
    let marks = submenu(&menu.menu.entries[3]);
    assert!(!check(&marks.entries[0]).checked);
    assert!(check(&marks.entries[1]).checked);
}

#[test]
fn reader_page_menu_and_cover_update() {
    let ctx = PageContext { window_id: 2, book_id: Some(9), name: "004.png".to_string() };
    let menu = ReaderPageContextMenu::new(ctx.clone());
    assert_eq!(texts(&menu.menu.entries), vec!["Set as cover", "-", "Delete page"]);
    assert_eq!(item(&menu.menu.entries[2]).id, "kt-ctx-reader-page-delete-page");
    assert_eq!(ctx.cover_update(), Some((9, "004.png".to_string())));
    let outside = PageContext { window_id: 2, book_id: None, name: "004.png".to_string() };
    assert_eq!(outside.cover_update(), None);
}

#[test]
fn app_menu_items_run_their_actions() {
    assert_eq!(AppItem::ColorModeDark.action(), Action::SetColorMode(ColorMode::Dark));
    assert_eq!(AppItem::AddMockBooksPortrait.action(), Action::AddMockBooks(Orientation::Portrait));
    assert_eq!(AppItem::About.action(), Action::Nothing);
    assert_eq!(AppItem::action_for_id("kt-app-random-book"), Action::OpenRandomBook);
    assert_eq!(AppItem::action_for_id("kt-app-scan-book-folders"), Action::ScanBookFolders);
    assert_eq!(AppItem::action_for_id("kt-reader-1-close"), Action::Nothing);
}
