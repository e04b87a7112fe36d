use kotori::active::{ActiveBook, AfterDeleteRequest, PageDeletedFollowUp};
use kotori::error::Error;
use kotori::glob::{is_book_page_name, is_book_path};
use kotori::model::Book;
use kotori::natural::{sort_naturally, Order};
use kotori::pages::{book_pages, first_page_name, has_page};
use kotori::structs::ReaderBook;
use kotori::paths::Title;

fn strings(names: &[&str]) -> Vec<String> {
    names.iter().map(|s| s.to_string()).collect()
}

fn page_names(pages: &kotori::collections::PageMap) -> Vec<(usize, String)> {
    pages.iter().map(|(k, v)| (*k, v.clone())).collect()
}

#[test]
fn book_pages_keep_images_in_natural_order() {
    let names = strings(&["page10.jpg", "kotori.json", "page2.PNG", "Page1.jpeg", "notes.txt", "cover.webp"]);
    let pages = book_pages(&names);
    assert_eq!(
        page_names(&pages),
        vec![
            (0, "cover.webp".to_string()),
            (1, "Page1.jpeg".to_string()),
            (2, "page2.PNG".to_string()),
            (3, "page10.jpg".to_string()),
        ]
    );
}

#[test]
fn book_pages_of_a_book_without_images_is_empty() {
    let pages = book_pages(&strings(&["readme.txt", "kotori.json"]));
    assert!(pages.is_empty());
    assert_eq!(first_page_name(&pages), Err(Error::EmptyBook));
}

#[test]
fn page_globs_accept_every_image_extension_in_any_case() {
    for name in ["a.bmp", "a.GIF", "dir/a.jpg", "a.JPEG", "a.png", "a.WebP"] {
        assert!(is_book_page_name(name), "{name}");
    }
    for name in ["a.txt", "a.jpg.txt", "jpg", "a.cbz"] {
        assert!(!is_book_page_name(name), "{name}");
    }
}

#[test]
fn book_globs_accept_archives_in_any_case() {
    for path in ["/books/One Piece 01.cbz", "b.CBR", "c.Zip"] {
        assert!(is_book_path(path), "{path}");
    }
    for path in ["/books/a.rar", "/books/a.pdf", "cbz"] {
        assert!(!is_book_path(path), "{path}");
    }
}

fn titled(title: &str) -> ActiveBook {
    ActiveBook::new(&format!("/books/{title}.cbz")).unwrap()
}

#[test]
fn natural_order_compares_numbers_and_ignores_case() {
    assert_eq!(titled("page2").compare(&titled("page10")), Order::Less);
    assert_eq!(titled("Page10").compare(&titled("page2")), Order::Greater);
    assert_eq!(titled("ABC").compare(&titled("abc")), Order::Equal);
}

#[test]
fn sort_naturally_orders_names() {
    let sorted = sort_naturally(strings(&["x10", "x9", "X1", "y", "x100"]));
    assert_eq!(sorted, strings(&["X1", "x9", "x10", "x100", "y"]));
}

#[test]
fn first_page_and_has_page() {
    let pages = book_pages(&strings(&["b.png", "a.png"]));
    assert_eq!(first_page_name(&pages), Ok("a.png".to_string()));
    assert!(has_page(&pages, "b.png"));
    assert!(!has_page(&pages, "c.png"));
}

#[test]
fn reader_book_lists_pages_by_index() {
    let mut map = kotori::collections::PageMap::default();
    map.insert(2, "c.png".to_string());
    map.insert(0, "a.png".to_string());
    map.insert(1, "b.png".to_string());
    let book = ReaderBook::from_active(Some(7), "/b.cbz".to_string(), Title::new("b"), &map);
    let pages: Vec<(usize, String)> = book.pages.iter().map(|p| (p.index, p.name.clone())).collect();
    assert_eq!(pages, vec![(0, "a.png".into()), (1, "b.png".into()), (2, "c.png".into())]);
    assert_eq!(book.id, Some(7));
}

fn library_book(id: i32) -> Book {
    Book {
        id,
        path: "/books/Vol 1.cbz".to_string(),
        title: "Vol 1".to_string(),
        cover: "01.png".to_string(),
        rating: 3,
        read: false,
    }
}

#[test]
fn cover_name_prefers_the_saved_cover_while_the_book_has_it() {
    let pages = book_pages(&strings(&["01.png", "02.png"]));
    assert_eq!(ActiveBook::cover_name("02.png", &pages), Ok("02.png".to_string()));
    assert_eq!(ActiveBook::cover_name("gone.png", &pages), Ok("01.png".to_string()));
    let empty = book_pages(&strings(&[]));
    assert_eq!(ActiveBook::cover_name("gone.png", &empty), Err(Error::EmptyBook));
}

#[test]
fn deleting_the_last_page_removes_the_book_from_the_library() {
    let book = ActiveBook::from_model(&library_book(4)).unwrap();
    let none = book_pages(&strings(&[]));
    assert_eq!(book.after_page_deleted(false, &none), PageDeletedFollowUp::RemoveFromLibrary(4));
}

#[test]
fn deleting_the_cover_makes_the_first_page_the_cover() {
    let book = ActiveBook::from_model(&library_book(4)).unwrap();
    let left = book_pages(&strings(&["03.png", "02.png"]));
    assert_eq!(
        book.after_page_deleted(true, &left),
        PageDeletedFollowUp::SetCover(4, "02.png".to_string())
    );
    assert_eq!(book.after_page_deleted(false, &left), PageDeletedFollowUp::Nothing);
}

#[test]
fn books_outside_the_library_need_nothing_after_a_deletion() {
    let book = ActiveBook::new("/tmp/loose.cbz").unwrap();
    let none = book_pages(&strings(&[]));
    assert_eq!(book.after_page_deleted(true, &none), PageDeletedFollowUp::Nothing);
    assert_eq!(book.title.0, "loose");
}

#[test]
fn deleted_page_counts_as_cover_by_name_or_by_library_membership() {
    let outside = ActiveBook::new("/tmp/loose.cbz").unwrap();
    let inside = ActiveBook::from_model(&library_book(1)).unwrap();
    assert!(outside.is_deleted_page_cover(&Ok("a.png".to_string()), "a.png"));
    assert!(!outside.is_deleted_page_cover(&Ok("a.png".to_string()), "b.png"));
    assert!(!outside.is_deleted_page_cover(&Err(Error::EmptyBook), "b.png"));
    assert!(inside.is_deleted_page_cover(&Err(Error::EmptyBook), "b.png"));
}

#[test]
fn active_book_remembers_its_first_id() {
    let mut book = ActiveBook::new("/tmp/x.cbz").unwrap();
    assert_eq!(book.id(), None);
    book.remember_id(3);
    book.remember_id(9);
    assert_eq!(book.id(), Some(3));
    let other = ActiveBook::new("/tmp/x.cbz").unwrap();
    assert!(book.same_book(&other));
    let later = ActiveBook::new("/tmp/x10.cbz").unwrap();
    let earlier = ActiveBook::new("/tmp/X9.cbz").unwrap();
    assert_eq!(earlier.compare(&later), Order::Less);
}

#[test]
fn active_book_needs_a_file_name() {
    assert!(matches!(ActiveBook::new(""), Err(Error::InvalidBookTitle)));
}

#[test]
fn active_book_keeps_pages_until_one_is_deleted() {
    let mut book = ActiveBook::new("/books/Dorohedoro 01.cbz").unwrap();
    assert!(book.pages().is_none());
    book.remember_pages(book_pages(&strings(&["b.png", "a.png"])));
    book.remember_pages(book_pages(&strings(&["z.png"])));
    assert_eq!(page_names(book.pages().unwrap()), vec![(0, "a.png".to_string()), (1, "b.png".to_string())]);
    book.forget_pages();
    assert!(book.pages().is_none());
    assert_eq!(book.title.as_str(), "Dorohedoro 01");
    let other = ActiveBook::new("/books/Dorohedoro 01.cbz").unwrap();
    assert!(book.same_book(&other));
    assert!(!book.same_book(&ActiveBook::new("/books/Dorohedoro 02.cbz").unwrap()));
}

#[test]
fn deleting_a_page_runs_its_steps_in_order() {
    let mut book = ActiveBook::from_model(&library_book(4)).unwrap();
    book.remember_pages(book_pages(&strings(&["01.png", "02.png"])));
    assert_eq!(book.after_delete_request(false), AfterDeleteRequest::Stop);
    assert!(book.pages().is_some());
    assert_eq!(book.after_delete_request(true), AfterDeleteRequest::ReadPages);
    assert!(book.pages().is_none());
    let follow_up = book.after_pages_read(true, book_pages(&strings(&["02.png"])));
    assert_eq!(follow_up, PageDeletedFollowUp::SetCover(4, "02.png".to_string()));
    assert_eq!(page_names(book.pages().unwrap()), vec![(0, "02.png".to_string())]);

    let mut loose = ActiveBook::new("/tmp/loose.cbz").unwrap();
    assert_eq!(loose.after_delete_request(true), AfterDeleteRequest::Finish(PageDeletedFollowUp::Nothing));
}
