use kotori::library::{
    books_from_dropped_paths, first_dropped_book, folders_to_add, random_book_id,
    select_book_files, unique_paths, unsaved_books,
};

fn strings(items: &[&str]) -> Vec<String> {
    items.iter().map(|s| s.to_string()).collect()
}

#[test]
fn unique_paths_keeps_first_occurrences_in_order() {
    let paths = strings(&["/b", "/a", "/b", "/c", "/a"]);
    assert_eq!(unique_paths(&paths), strings(&["/b", "/a", "/c"]));
    assert!(unique_paths(&Vec::new()).is_empty());
}

#[test]
fn folders_within_library_folders_are_skipped() {
    let library = strings(&["/manga"]);
    let picked = strings(&["/manga/one-piece", "/comics", "/manga", "/comics/dc", "/comics", "/other"]);
    assert_eq!(folders_to_add(&picked, &library), strings(&["/comics", "/other"]));
}

#[test]
fn folders_within_folders_picked_before_are_skipped() {
    let picked = strings(&["/a", "/a/b", "/ab", "/c/d", "/c"]);
    assert_eq!(folders_to_add(&picked, &Vec::new()), strings(&["/a", "/ab", "/c/d", "/c"]));
}

#[test]
fn no_folder_is_added_twice() {
    let picked = strings(&["/x", "/x", "/y"]);
    assert_eq!(folders_to_add(&picked, &strings(&["/y"])), strings(&["/x"]));
}

#[test]
fn folders_are_compared_by_whole_components() {
    let library = strings(&["/manga/", "./comics"]);
    let picked = strings(&["/manga//one", "comics/two", "/mangaka", "/manga/./three", "/other/", "/other/x"]);
    assert_eq!(folders_to_add(&picked, &library), strings(&["comics/two", "/mangaka", "/other/"]));
}

#[test]
fn book_files_are_selected_once_in_order() {
    let files = strings(&["/m/a.cbz", "/m/cover.jpg", "/m/b.CBR", "/m/a.cbz", "/m/c.zip", "/m/d.rar"]);
    assert_eq!(select_book_files(&files), strings(&["/m/a.cbz", "/m/b.CBR", "/m/c.zip"]));
}

#[test]
fn only_unsaved_books_are_kept() {
    let books = strings(&["/a.cbz", "/b.cbz", "/c.cbz"]);
    assert_eq!(unsaved_books(&books, &vec![true, false, false]), strings(&["/b.cbz", "/c.cbz"]));
    assert!(unsaved_books(&books, &vec![true, true, true]).is_empty());
}

#[test]
fn random_book_comes_from_the_library() {
    assert_eq!(random_book_id(&Vec::new()), None);
    assert_eq!(random_book_id(&vec![7]), Some(7));
    let ids = vec![3, 9, 12];
    for _ in 0..20 {
        let id = random_book_id(&ids).unwrap();
        assert!(ids.contains(&id));
    }
}

#[test]
fn dropped_books_are_opened_in_order() {
    let paths = strings(&["/x/notes.txt", "/x/a.cbz", "/x/pic.png", "/x/b.zip"]);
    let books = books_from_dropped_paths(&paths);
    let opened: Vec<(String, String)> = books.iter().map(|b| (b.path.clone(), b.title.0.clone())).collect();
    assert_eq!(
        opened,
        vec![("/x/a.cbz".to_string(), "a".to_string()), ("/x/b.zip".to_string(), "b".to_string())]
    );
    assert!(books.iter().all(|b| b.id.is_none() && b.pages.is_none()));
}

#[test]
fn first_dropped_book_opens_in_the_reader() {
    let paths = strings(&["/x/notes.txt", "/x/b.CBZ", "/x/a.cbz"]);
    assert_eq!(first_dropped_book(&paths), Some("/x/b.CBZ".to_string()));
    assert_eq!(first_dropped_book(&strings(&["/x/notes.txt"])), None);
}

use kotori::bookfile::{metadata_file_name, names_except};
use kotori::dialog::{book_file_filter, color_mode_dialog, remove_all_books_dialog, remove_book_dialog, DialogKind};
use kotori::library::library_listing;
use kotori::model::Book;
use kotori::paths::AppDirs;
use kotori::tempfile::{temp_file_name, temp_file_path_in};

fn book(id: i32, rating: i32) -> Book {
    Book {
        id,
        path: format!("/m/{id}.cbz"),
        title: format!("Book {id}"),
        cover: "1.png".to_string(),
        rating,
        read: false,
    }
}

#[test]
fn listing_shows_books_whose_files_exist() {
    let dirs = AppDirs { app_cache_dir: "/cache".to_string() };
    let books = vec![book(1, 2), book(2, 3), book(3, 4)];
    let listing = library_listing(&dirs, &books, &vec![true, false, true], &vec![false, true, true]).unwrap();
    let ids: Vec<i32> = listing.books.iter().map(|b| b.id).collect();
    assert_eq!(ids, vec![1, 3]);
    assert_eq!(listing.missing, vec![2]);
    assert_eq!(listing.covers_to_extract, vec![1]);
    assert!(listing.books[0].cover.is_none());
    assert!(listing.books[1].cover.as_ref().unwrap().ends_with("3"));
    assert_eq!(listing.books[1].rating, 4);
}

#[test]
fn listing_refuses_a_rating_out_of_range_only_for_shown_books() {
    let dirs = AppDirs { app_cache_dir: "/cache".to_string() };
    let books = vec![book(1, 2), book(2, 999)];
    assert!(library_listing(&dirs, &books, &vec![true, false], &vec![true, true]).is_ok());
    assert!(matches!(
        library_listing(&dirs, &books, &vec![true, true], &vec![true, true]),
        Err(kotori::error::Error::IntegerOutOfRange)
    ));
}

#[test]
fn metadata_entry_names() {
    assert_eq!(metadata_file_name(false), "kotori.json");
    assert_eq!(metadata_file_name(true), "kotori-dev.json");
}

#[test]
fn rewriting_copies_every_other_entry() {
    let names = strings(&["001.jpg", "kotori.json", "002.jpg", "kotori.json"]);
    assert_eq!(names_except(&names, "kotori.json"), strings(&["001.jpg", "002.jpg"]));
    assert_eq!(names_except(&names, "002.jpg"), strings(&["001.jpg", "kotori.json", "kotori.json"]));
    assert_eq!(names_except(&names, "none"), names);
}

#[test]
fn temp_files_are_named_by_fresh_uuids() {
    let a = temp_file_name();
    let b = temp_file_name();
    assert_eq!(a.len(), 43);
    assert!(a.ends_with(".kotori"));
    assert_eq!(a.as_bytes()[8], b'-');
    assert_eq!(a.as_bytes()[14], b'7');
    assert_ne!(a, b);
    let path = temp_file_path_in("/books");
    assert!(path.starts_with("/books"));
    assert!(path.ends_with(".kotori"));
}

#[test]
fn dialogs_say_what_happens() {
    let d = remove_book_dialog("Akira 01");
    assert_eq!(d.message, "Akira 01 will be removed from the library.");
    assert_eq!((d.title.as_str(), d.ok_label.as_str(), d.cancel_label.as_str()), ("Remove book", "Remove", "Cancel"));
    assert_eq!(d.kind, DialogKind::Warning);
    let d = remove_all_books_dialog();
    assert_eq!(d.message, "All books will be removed. Are you sure?");
    assert_eq!(d.ok_label, "Clear");
    let d = color_mode_dialog();
    assert_eq!(d.kind, DialogKind::Info);
    assert_eq!(d.ok_label, "Confirm");
    assert_eq!(d.title, "Color mode");
    let f = book_file_filter();
    assert_eq!(f.name, "Book");
    assert_eq!(f.extensions, strings(&["cbr", "cbz", "zip"]));
}

use kotori::image::Orientation;
use kotori::mock::{mock_book, MOCK_BOOKS, MOCK_PAGES};

#[test]
fn sample_books_are_named_by_uuids() {
    let book = mock_book("/cache/mocks", Orientation::Portrait, 3).unwrap();
    assert_eq!(book.file_name.len(), 40);
    assert!(book.file_name.ends_with(".zip"));
    assert_eq!(book.file_name.as_bytes()[14], b'4');
    let sep = std::path::MAIN_SEPARATOR;
    assert_eq!(book.path, format!("/cache/mocks{sep}{}", book.file_name));
    assert_eq!((book.width, book.height), (760, 1200));
    assert_eq!(book.pages.len(), 3);
    for page in &book.pages {
        assert_eq!(page.name.len(), 41);
        assert!(page.name.ends_with(".webp"));
    }
    let landscape = mock_book("/cache/mocks", Orientation::Landscape, 0).unwrap();
    assert!(landscape.pages.is_empty());
    assert_eq!((landscape.width, landscape.height), (1280, 520));
    assert_eq!((MOCK_BOOKS, MOCK_PAGES), (15, 20));
}

#[test]
fn sample_pages_are_one_colour_lossless_webps() {
    let book = mock_book("/cache/mocks", Orientation::Landscape, 2).unwrap();
    for page in &book.pages {
        let decoded = image::load_from_memory_with_format(&page.image, image::ImageFormat::WebP).unwrap().to_rgb8();
        assert_eq!(decoded.dimensions(), (1280, 520));
        let colour = image::Rgb([page.color.red, page.color.green, page.color.blue]);
        assert!(decoded.pixels().all(|p| *p == colour));
    }
}

#[test]
fn temp_files_lie_in_their_directory() {
    let path = temp_file_path_in("/books");
    let sep = std::path::MAIN_SEPARATOR;
    assert!(path.starts_with(&format!("/books{sep}")));
    assert_eq!(path.len(), "/books".len() + 1 + 43);
    assert_eq!(path.as_bytes()["/books".len() + 1 + 14], b'7');
}

#[test]
fn adding_the_same_folders_again_adds_nothing() {
    let library = strings(&["/manga"]);
    let picked = strings(&["/comics", "/comics/dc", "/manga/x", "/other"]);
    let added = folders_to_add(&picked, &library);
    assert_eq!(added, strings(&["/comics", "/other"]));
    let mut all = library.clone();
    all.extend(added);
    assert!(folders_to_add(&picked, &all).is_empty());
}

#[test]
fn adding_folders_again_adds_nothing_whatever_their_spelling() {
    let library = strings(&["/manga/"]);
    let picked = strings(&["./comics/", "/manga//x", "comics/dc", "/other/./y"]);
    let added = folders_to_add(&picked, &library);
    assert_eq!(added, strings(&["./comics/", "comics/dc", "/other/./y"]));
    let mut all = library.clone();
    all.extend(added);
    assert!(folders_to_add(&picked, &all).is_empty());
}
