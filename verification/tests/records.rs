use kotori::cover::Cover;
use kotori::error::Error;
use kotori::event::{target_label, Event, Payload};
use kotori::image::{first_extension, format_of_extension, guess_image_format, thumbnail_webp, ImageKind, Orientation};
use kotori::metadata::{Builder, Metadata};
use kotori::model::{stored_rating, Book, BookBuilder, NewFolder};
use kotori::paths::{AppDirs, PathExt, PathResolverExt, Title};
use kotori::scheduler::{
    cache_step, choose_worker, has_path, CacheAction, FileTable, OpenFiles, Request, Route, WorkerChoice, WorkerStatus,
};
use kotori::structs::{LibraryBook, ReaderBookPage};
use kotori::text::{i32_to_decimal, strip_prefix, u64_to_decimal};

fn book(rating: i32) -> Book {
    Book {
        id: 12,
        path: "/library/Vinland Saga 01.cbz".to_string(),
        title: "Vinland Saga 01".to_string(),
        cover: "003.jpg".to_string(),
        rating,
        read: true,
    }
}

#[test]
fn decimal_renderings() {
    assert_eq!(u64_to_decimal(0), "0");
    assert_eq!(u64_to_decimal(10), "10");
    assert_eq!(u64_to_decimal(u64::MAX), "18446744073709551615");
    assert_eq!(i32_to_decimal(-42), "-42");
    assert_eq!(i32_to_decimal(i32::MIN), "-2147483648");
    assert_eq!(i32_to_decimal(7), "7");
}

#[test]
fn string_helpers() {
    assert_eq!(strip_prefix("kt-reader-3-close", "kt-reader-3-"), Some("close".to_string()));
    assert_eq!(strip_prefix("close", "kt-"), None);
    assert_eq!(kotori::text::concat("ab", "cd"), "abcd");
}

#[test]
fn cover_path_ends_with_the_book_id() {
    let dirs = AppDirs { app_cache_dir: "/cache".to_string() };
    assert!(dirs.cover_dir().ends_with("covers"));
    assert!(dirs.cover(42).ends_with("42"));
    assert!(dirs.cover(-3).ends_with("-3"));
    assert!(dirs.cover(42).starts_with("/cache"));
    assert!(dirs.mocks_dir().ends_with("mocks"));
    assert!(dirs.dev_cache_dir().ends_with("dev-cache"));
    match Cover::from_book_id(&dirs, 42, true) {
        Cover::Extracted(path) => assert!(path.ends_with("42")),
        Cover::NotExtracted => panic!("the cover exists"),
    }
    assert!(matches!(Cover::from_book_id(&dirs, 42, false), Cover::NotExtracted));
    assert_eq!(Cover::from_path("/c/1").into_path(), Some("/c/1".to_string()));
    assert_eq!(Cover::NotExtracted.into_path(), None);
}

#[test]
fn titles_come_from_file_stems() {
    assert_eq!(Title::try_from_path("/books/One Piece 001.cbz").unwrap().as_str(), "One Piece 001");
    assert!(matches!(Title::try_from_path(""), Err(Error::InvalidBookTitle)));
    assert_eq!(Title::new("x").to_string(), "x");
}

#[test]
fn path_helpers() {
    let path = "/books/a.cbz".to_string();
    assert_eq!(path.try_parent(), Ok("/books".to_string()));
    assert_eq!("".to_string().try_parent(), Err(Error::InvalidPath));
    assert_eq!(path.try_str(), Ok("/books/a.cbz"));
    assert_eq!(path.try_string(), Ok("/books/a.cbz".to_string()));
}

#[test]
fn events_are_named_and_addressed() {
    let e = Event::PageDeleted { window_id: 4, name: "002.png".to_string() }.emit().unwrap();
    assert_eq!(e.name, "page_deleted");
    assert_eq!(target_label(&e), "reader-4");
    assert!(matches!(e.payload, Payload::PageDeleted(ref p) if p.name == "002.png"));

    let e = Event::RatingUpdated { id: 3, rating: 5 }.emit().unwrap();
    assert_eq!(e.name, "rating_updated");
    assert_eq!(target_label(&e), "main");
    assert!(matches!(e.payload, Payload::RatingUpdated(ref p) if p.id == 3 && p.rating == 5));

    let e = Event::CoverExtracted { id: 8, path: "/c/8".to_string() }.emit().unwrap();
    assert_eq!(e.name, "cover_extracted");
    assert!(matches!(e.payload, Payload::CoverExtracted(ref p) if p.id == 8 && p.path == "/c/8"));

    let e = Event::ReaderBookChanged { window_id: 2 }.emit().unwrap();
    assert_eq!(e.name, "reader_book_changed");
    assert_eq!(target_label(&e), "reader-2");
    assert!(matches!(e.payload, Payload::Unit));

    assert_eq!(Event::BookRemoved(1).emit().unwrap().name, "book_removed");
    assert_eq!(Event::ReadUpdated { id: 1, read: true }.emit().unwrap().name, "read_updated");
    assert_eq!(Event::LibraryCleared.emit().unwrap().name, "library_cleared");
}

#[test]
fn library_book_event_carries_the_book() {
    let dirs = AppDirs { app_cache_dir: "/cache".to_string() };
    let library_book = LibraryBook::from_model(&dirs, &book(4), true).unwrap();
    assert_eq!(library_book.rating, 4);
    assert_eq!(library_book.title.as_str(), "Vinland Saga 01");
    assert!(library_book.cover.as_ref().unwrap().ends_with("12"));
    let e = Event::BookAdded(library_book).emit().unwrap();
    assert_eq!(e.name, "book_added");
    assert!(matches!(e.payload, Payload::Book(ref b) if b.id == 12));
    assert!(matches!(LibraryBook::from_model(&dirs, &book(300), false), Err(Error::IntegerOutOfRange)));
    assert!(LibraryBook::from_model(&dirs, &book(0), false).unwrap().cover.is_none());
}

#[test]
fn ratings_above_five_are_refused() {
    assert_eq!(stored_rating(0), Ok(0));
    assert_eq!(stored_rating(5), Ok(5));
    assert_eq!(stored_rating(6), Err(Error::InvalidRating));
}

#[test]
fn metadata_of_a_book() {
    let metadata = Metadata::try_from_book(&book(3)).unwrap();
    assert_eq!(metadata.title.as_ref().unwrap().as_str(), "Vinland Saga 01");
    assert_eq!(metadata.cover.as_deref(), Some("003.jpg"));
    assert_eq!(metadata.rating, Some(3));
    assert_eq!(metadata.read, Some(true));
    assert_eq!(metadata.version.as_ref().unwrap().text(), "0.1.0");
    assert!(matches!(Metadata::try_from_book(&book(-1)), Err(Error::IntegerOutOfRange)));
}

#[test]
fn metadata_builder_defaults() {
    let built = Builder::new("/x/A Book.zip").build();
    assert_eq!(built.title.unwrap().as_str(), "A Book");
    assert_eq!(built.cover, None);
    assert_eq!(built.rating, Some(0));
    assert_eq!(built.read, Some(false));
    let built = Metadata::builder("/x/b.cbz").rating(4).read(true).cover("01.png").title(Title::new("B")).build();
    assert_eq!(built.title.unwrap().as_str(), "B");
    assert_eq!(built.cover.as_deref(), Some("01.png"));
    assert_eq!(built.rating, Some(4));
    assert_eq!(built.read, Some(true));
}

#[test]
fn book_builder_prefers_what_is_set() {
    let b = Book::builder("/m/Berserk 01.cbz");
    assert!(b.needs_first_page());
    let built = b.build(Some("001.jpg".to_string())).unwrap();
    assert_eq!(built.title, "Berserk 01");
    assert_eq!(built.cover, "001.jpg");
    assert_eq!(built.rating, 0);
    let b = BookBuilder::new("/m/x.cbz").cover("cover.png".to_string()).title(Title::new("X"));
    assert!(!b.needs_first_page());
    let built = b.build(None).unwrap();
    assert_eq!((built.title.as_str(), built.cover.as_str()), ("X", "cover.png"));
    assert!(matches!(BookBuilder::new("/m/y.cbz").title(Title::new("Y")).build(None), Err(Error::EmptyBook)));
    assert!(matches!(BookBuilder::new("").build(Some("1.png".to_string())), Err(Error::InvalidBookTitle)));
}

#[test]
fn metadata_restores_a_saved_book() {
    let saved = book(4);
    let metadata = Metadata::try_from_book(&saved).unwrap();
    let rebuilt = Book::builder(&saved.path).metadata(metadata).build(None).unwrap();
    assert_eq!(rebuilt.title, saved.title);
    assert_eq!(rebuilt.cover, saved.cover);
    assert_eq!(rebuilt.rating, saved.rating);
}

#[test]
fn metadata_with_a_rating_above_five_keeps_the_default() {
    let mut metadata = Metadata::builder("/m/a.cbz").rating(9).build();
    metadata.cover = None;
    let rebuilt = Book::builder("/m/a.cbz").metadata(metadata).build(Some("1.png".to_string())).unwrap();
    assert_eq!(rebuilt.rating, 0);
    assert_eq!(rebuilt.cover, "1.png");
}

#[test]
fn new_folders_keep_their_path() {
    assert_eq!(NewFolder::try_from_path("/m".to_string()).unwrap().path, "/m");
}

#[test]
fn image_format_from_bytes_then_extension() {
    let png = [0x89, b'P', b'N', b'G', 0x0d, 0x0a, 0x1a, 0x0a, 0, 0];
    assert_eq!(guess_image_format("page.jpg", &png), Ok(ImageKind::Png));
    let jpeg = [0xff, 0xd8, 0xff, 0xe0, 0, 0];
    assert_eq!(guess_image_format("page.png", &jpeg), Ok(ImageKind::Jpeg));
    let unknown = [1, 2, 3, 4];
    assert_eq!(guess_image_format("photo.JPEG", &unknown), Ok(ImageKind::Jpeg));
    assert_eq!(guess_image_format("notes.txt", &unknown), Err(Error::UnknownImageFormat));
    assert_eq!(guess_image_format("", &unknown), Err(Error::UnknownImageFormat));
}

#[test]
fn image_format_from_extension() {
    assert_eq!(format_of_extension("TIF"), Ok(ImageKind::Tiff));
    assert_eq!(format_of_extension("jfif"), Ok(ImageKind::Jpeg));
    assert_eq!(format_of_extension("apng"), Ok(ImageKind::Png));
    assert_eq!(format_of_extension("pgm"), Ok(ImageKind::Pnm));
    assert_eq!(format_of_extension("WebP"), Ok(ImageKind::WebP));
    assert_eq!(format_of_extension("doc"), Err(Error::UnknownImageFormat));
}

#[test]
fn sample_book_page_sizes() {
    assert_eq!(Orientation::Landscape.dimensions(), (1280, 520));
    assert_eq!(Orientation::Portrait.dimensions(), (760, 1200));
}

#[test]
fn reader_book_page_keeps_index_and_name() {
    let page = ReaderBookPage::new(3, "004.png");
    assert_eq!((page.index, page.name.as_str()), (3, "004.png"));
}

#[test]
fn first_idle_worker_is_chosen() {
    let statuses = vec![WorkerStatus::Busy(2), WorkerStatus::Idle, WorkerStatus::Idle];
    assert_eq!(choose_worker(&statuses, 3), WorkerChoice::Existing(1));
}

#[test]
fn a_worker_is_spawned_while_there_is_room() {
    let statuses = vec![WorkerStatus::Busy(2)];
    assert_eq!(choose_worker(&statuses, 4), WorkerChoice::Spawn);
    assert_eq!(choose_worker(&Vec::new(), 1), WorkerChoice::Spawn);
}

#[test]
fn the_first_least_busy_worker_is_chosen_when_all_are_busy() {
    let statuses = vec![WorkerStatus::Busy(5), WorkerStatus::Busy(2), WorkerStatus::Busy(7), WorkerStatus::Busy(2)];
    assert_eq!(choose_worker(&statuses, 4), WorkerChoice::Existing(1));
}

#[test]
fn files_are_routed_to_their_worker() {
    let mut table = FileTable::new();
    let path = "/a.cbz".to_string();
    assert_eq!(table.route(&path, true), Route::ChooseWorker);
    table.assign(path.clone(), 2);
    assert_eq!(table.holder(&path), Some(2));
    assert_eq!(table.route(&path, true), Route::Worker(2));
    assert_eq!(table.route(&path, false), Route::ChooseWorker);
    assert_eq!(table.holder(&path), None);
    assert_eq!(table.route(&path, true), Route::ChooseWorker);
}

#[test]
fn requests_about_files() {
    assert!(!has_path(Request::Status));
    assert!(has_path(Request::ReadPage));
    assert!(has_path(Request::Close));
}

#[test]
fn cache_keeps_read_files_and_drops_rewritten_ones() {
    assert_eq!(cache_step(Request::ReadPage, false), (CacheAction::OpenAndKeep, true));
    assert_eq!(cache_step(Request::GetPages, true), (CacheAction::UseOpen, true));
    assert_eq!(cache_step(Request::DeletePage, true), (CacheAction::TakeOpen, false));
    assert_eq!(cache_step(Request::SetMetadata, false), (CacheAction::OpenOnce, false));
    assert_eq!(cache_step(Request::Close, true), (CacheAction::Close, false));
    assert_eq!(cache_step(Request::HasBookFileInCache, true), (CacheAction::Report(true), true));
    assert_eq!(cache_step(Request::Status, false), (CacheAction::Nothing, false));
    let (_, open) = cache_step(Request::DeletePage, true);
    assert_eq!(cache_step(Request::ReadPage, open), (CacheAction::OpenAndKeep, true));
}

#[test]
fn file_records_are_kept_per_path() {
    let mut table = FileTable::new();
    let a = "/a.cbz".to_string();
    let b = "/b.cbz".to_string();
    table.assign(a.clone(), 1);
    table.assign(b.clone(), 2);
    table.assign(a.clone(), 3);
    assert_eq!(table.holder(&a), Some(3));
    assert_eq!(table.holder(&b), Some(2));
    assert_eq!(table.route(&a, false), Route::ChooseWorker);
    assert_eq!(table.holder(&a), None);
    assert_eq!(table.holder(&b), Some(2));
}

#[test]
fn a_worker_keeps_read_files_open() {
    let mut open = OpenFiles::new();
    let a = "/a.cbz".to_string();
    let b = "/b.cbz".to_string();
    assert_eq!(open.serve(Request::GetPages, &a), CacheAction::OpenAndKeep);
    assert_eq!(open.serve(Request::HasBookFileInCache, &a), CacheAction::Report(false));
    open.kept_open(&a);
    assert_eq!(open.serve(Request::ReadPage, &a), CacheAction::UseOpen);
    assert_eq!(open.serve(Request::HasBookFileInCache, &b), CacheAction::Report(false));
    assert_eq!(open.serve(Request::HasBookFileInCache, &a), CacheAction::Report(true));
    assert_eq!(open.serve(Request::SetMetadata, &a), CacheAction::TakeOpen);
    assert_eq!(open.serve(Request::GetMetadata, &a), CacheAction::OpenAndKeep);
    open.kept_open(&a);
    assert_eq!(open.serve(Request::ReadPage, &b), CacheAction::OpenAndKeep);
    open.kept_open(&b);
    assert_eq!(open.serve(Request::Close, &a), CacheAction::Close);
    assert_eq!(open.serve(Request::HasBookFileInCache, &a), CacheAction::Report(false));
    assert_eq!(open.serve(Request::HasBookFileInCache, &b), CacheAction::Report(true));
}

#[test]
fn a_failed_open_leaves_the_cache_as_it_was() {
    let mut open = OpenFiles::new();
    let a = "/missing.cbz".to_string();
    assert_eq!(open.serve(Request::ReadPage, &a), CacheAction::OpenAndKeep);
    assert_eq!(open.serve(Request::ReadPage, &a), CacheAction::OpenAndKeep);
    assert_eq!(open.serve(Request::HasBookFileInCache, &a), CacheAction::Report(false));
}

#[test]
fn parents_and_stems_of_plain_paths() {
    assert_eq!("/books/a.cbz".to_string().try_parent(), Ok("/books".to_string()));
    assert_eq!("/a.cbz".to_string().try_parent(), Ok("/".to_string()));
    assert_eq!("a.cbz".to_string().try_parent(), Ok("".to_string()));
    assert_eq!("/".to_string().try_parent(), Err(Error::InvalidPath));
    assert_eq!(Title::try_from_path("/b/archive.tar.gz").unwrap().as_str(), "archive.tar");
    assert_eq!(Title::try_from_path("/b/.hidden").unwrap().as_str(), ".hidden");
    assert_eq!(Title::try_from_path("/b/plain").unwrap().as_str(), "plain");
}

#[test]
fn cache_paths_are_pushed_onto_the_cache_directory() {
    let dirs = AppDirs { app_cache_dir: "/cache".to_string() };
    let sep = std::path::MAIN_SEPARATOR;
    assert_eq!(dirs.cover_dir(), format!("/cache{sep}covers"));
    assert_eq!(dirs.cover(7), format!("/cache{sep}covers{sep}7"));
    assert_eq!(dirs.dev_cache_dir(), format!("/cache{sep}dev-cache"));
    assert_eq!(dirs.mocks_dir(), format!("/cache{sep}dev-cache{sep}mocks"));
}

#[test]
fn image_format_falls_back_to_the_file_extension() {
    assert_eq!(guess_image_format("page.webp", &[]), Ok(ImageKind::WebP));
    assert_eq!(guess_image_format("/b/.png", &[]), Err(Error::UnknownImageFormat));
    assert_eq!(guess_image_format("notes.txt", &[]), Err(Error::UnknownImageFormat));
}

#[test]
fn thumbnails_fit_the_thumbnail_size_as_webp() {
    let source = image::RgbImage::from_pixel(1000, 500, image::Rgb([10, 20, 30]));
    let mut png = Vec::new();
    source
        .write_to(&mut std::io::Cursor::new(&mut png), image::ImageFormat::Png)
        .unwrap();
    let thumbnail = thumbnail_webp(&png, ImageKind::Png).unwrap();
    let decoded = image::load_from_memory_with_format(&thumbnail, image::ImageFormat::WebP).unwrap();
    assert_eq!((decoded.width(), decoded.height()), (400, 200));
    assert_eq!(thumbnail_webp(&png, ImageKind::Other), Err(Error::UnknownImageFormat));
    assert_eq!(thumbnail_webp(&[1, 2, 3], ImageKind::Png), Err(Error::Image));
    assert_eq!(first_extension(ImageKind::Jpeg), "jpg");
    assert_eq!(first_extension(ImageKind::Other), "");
}

#[test]
fn paths_are_told_apart_by_their_components() {
    assert_eq!(kotori::paths::path_components("/books//a.cbz/"), vec!["/".to_string(), "books".to_string(), "a.cbz".to_string()]);
    assert_eq!(kotori::paths::path_components("./a/./b"), vec![".".to_string(), "a".to_string(), "b".to_string()]);
    assert_eq!(kotori::paths::path_components("a/../b"), vec!["a".to_string(), "..".to_string(), "b".to_string()]);
    assert!(kotori::paths::path_components("").is_empty());
    let mut open = OpenFiles::new();
    let a = "/books/a.cbz".to_string();
    assert_eq!(open.serve(Request::ReadPage, &a), CacheAction::OpenAndKeep);
    open.kept_open(&a);
    assert_eq!(open.serve(Request::Close, &"/books//a.cbz".to_string()), CacheAction::Close);
    assert_eq!(open.serve(Request::HasBookFileInCache, &a), CacheAction::Report(false));
    let mut table = FileTable::new();
    table.assign("/books/./a.cbz".to_string(), 1);
    assert_eq!(table.holder(&a), Some(1));
}

#[test]
fn versions_are_read_into_their_parts() {
    let v = kotori::metadata::version_from_text("1.20.3-beta.1+build.5").unwrap();
    assert_eq!((v.major, v.minor, v.patch), (1, 20, 3));
    assert_eq!((v.pre.as_str(), v.build.as_str()), ("beta.1", "build.5"));
    assert_eq!(v.text(), "1.20.3-beta.1+build.5");
    assert_eq!(kotori::metadata::version_from_text("0.1.0").unwrap().text(), "0.1.0");
    assert!(kotori::metadata::version_from_text("01.2").is_none());
}

#[test]
fn covers_of_distinct_books_lie_apart() {
    let dirs = AppDirs { app_cache_dir: "/cache".to_string() };
    assert_ne!(dirs.cover(7), dirs.cover(17));
    assert_ne!(dirs.cover(-7), dirs.cover(7));
}
