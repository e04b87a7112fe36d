//! The events sent to the windows, and what each carries.

use crate::error::Error;
use crate::structs::LibraryBook;
use crate::text::owned;
use crate::window::{label_of, WindowKind};
use vstd::prelude::*;

verus! {

/// Payload of `book_removed`.
#[derive(Clone, Debug)]
pub struct BookRemoved {
    pub id: i32,
}

/// Payload of `cover_extracted`.
#[derive(Clone, Debug)]
pub struct CoverExtracted {
    pub id: i32,
    pub path: String,
}

impl CoverExtracted {
    /// The payload for the cover of book `id` extracted to `path`. A path held as a string is
    /// valid text, so this never fails.
    pub fn new(id: i32, path: &str) -> (r: Result<CoverExtracted, Error>)
        ensures
            r is Ok && r->Ok_0.id == id && r->Ok_0.path@ == path@,
    {
        Ok(CoverExtracted { id, path: owned(path) })
    }
}

/// Payload of `page_deleted`.
#[derive(Clone, Debug)]
pub struct PageDeleted {
    pub name: String,
}

impl PageDeleted {
    /// The payload for the deletion of page `name`.
    pub fn new(name: &str) -> (p: PageDeleted)
        ensures
            p.name@ == name@,
    {
        PageDeleted { name: owned(name) }
    }
}

/// Payload of `rating_updated`.
#[derive(Clone, Debug)]
pub struct RatingUpdated {
    pub id: i32,
    pub rating: u8,
}

/// Payload of `read_updated`.
#[derive(Clone, Debug)]
pub struct ReadUpdated {
    pub id: i32,
    pub read: bool,
}

/// What an event tells the window.
#[derive(Clone, Debug)]
pub enum Payload {
    Book(LibraryBook),
    BookRemoved(BookRemoved),
    CoverExtracted(CoverExtracted),
    PageDeleted(PageDeleted),
    RatingUpdated(RatingUpdated),
    ReadUpdated(ReadUpdated),
    /// No payload.
    Unit,
}

/// The events of the application.
#[derive(Clone, Debug)]
pub enum Event {
    BookAdded(LibraryBook),
    BookRemoved(i32),
    CoverExtracted { id: i32, path: String },
    PageDeleted { window_id: u16, name: String },
    RatingUpdated { id: i32, rating: u8 },
    ReadUpdated { id: i32, read: bool },
    ReaderBookChanged { window_id: u16 },
    LibraryCleared,
}

/// An event ready to be sent: its name, the label of the window it goes to, and its payload.
#[derive(Clone, Debug)]
pub struct Emission {
    pub name: String,
    pub target: WindowKind,
    pub payload: Payload,
}

/// The name of an event: its variant in snake case.
pub open spec fn event_name(event: Event) -> Seq<char> {
    match event {
        Event::BookAdded(_) => "book_added"@,
        Event::BookRemoved(_) => "book_removed"@,
        Event::CoverExtracted { .. } => "cover_extracted"@,
        Event::PageDeleted { .. } => "page_deleted"@,
        Event::RatingUpdated { .. } => "rating_updated"@,
        Event::ReadUpdated { .. } => "read_updated"@,
        Event::ReaderBookChanged { .. } => "reader_book_changed"@,
        Event::LibraryCleared => "library_cleared"@,
    }
}

/// The window an event goes to: the reader window it is about, or else the library window.
pub open spec fn event_target(event: Event) -> WindowKind {
    match event {
        Event::PageDeleted { window_id, .. } => WindowKind::Reader(window_id),
        Event::ReaderBookChanged { window_id } => WindowKind::Reader(window_id),
        _ => WindowKind::Main,
    }
}

/// The payload of an event carries exactly the event's data.
pub open spec fn payload_matches(event: Event, payload: Payload) -> bool {
    match event {
        Event::BookAdded(book) => payload == Payload::Book(book),
        Event::BookRemoved(id) => payload matches Payload::BookRemoved(p) && p.id == id,
        Event::CoverExtracted { id, path } => payload matches Payload::CoverExtracted(p) && p.id == id && p.path@ == path@,
        Event::PageDeleted { name, .. } => payload matches Payload::PageDeleted(p) && p.name@ == name@,
        Event::RatingUpdated { id, rating } => payload matches Payload::RatingUpdated(p) && p.id == id && p.rating == rating,
        Event::ReadUpdated { id, read } => payload matches Payload::ReadUpdated(p) && p.id == id && p.read == read,
        Event::ReaderBookChanged { .. } => payload == Payload::Unit,
        Event::LibraryCleared => payload == Payload::Unit,
    }
}

impl Event {
    /// The event as it is sent: named after its variant, addressed to the reader window it is
    /// about or else to the library window, with its data as payload.
    pub fn emit(self) -> (r: Result<Emission, Error>)
        ensures
            r is Ok,
            r->Ok_0.name@ == event_name(self),
            r->Ok_0.target == event_target(self),
            payload_matches(self, r->Ok_0.payload),
    {
        let ghost event = self;
        let (name, target, payload) = match self {
            Event::BookAdded(book) => (owned("book_added"), WindowKind::Main, Payload::Book(book)),
            Event::BookRemoved(id) => (owned("book_removed"), WindowKind::Main, Payload::BookRemoved(BookRemoved { id })),
            Event::CoverExtracted { id, path } => {
                let payload = match CoverExtracted::new(id, path.as_str()) {
                    Ok(p) => p,
                    Err(err) => {
                        return Err(err);
                    },
                };
                (owned("cover_extracted"), WindowKind::Main, Payload::CoverExtracted(payload))
            },
            Event::PageDeleted { window_id, name } => (
                owned("page_deleted"),
                WindowKind::Reader(window_id),
                Payload::PageDeleted(PageDeleted::new(name.as_str())),
            ),
            Event::RatingUpdated { id, rating } => (
                owned("rating_updated"),
                WindowKind::Main,
                Payload::RatingUpdated(RatingUpdated { id, rating }),
            ),
            Event::ReadUpdated { id, read } => (
                owned("read_updated"),
                WindowKind::Main,
                Payload::ReadUpdated(ReadUpdated { id, read }),
            ),
            Event::ReaderBookChanged { window_id } => (owned("reader_book_changed"), WindowKind::Reader(window_id), Payload::Unit),
            Event::LibraryCleared => (owned("library_cleared"), WindowKind::Main, Payload::Unit),
        };
        Ok(Emission { name, target, payload })
    }
}

/// The label of the window an event goes to.
pub fn target_label(emission: &Emission) -> (l: String)
    ensures
        l@ == label_of(emission.target),
{
    emission.target.label()
}

/// Events about a reader window go to that window, the one whose id they carry; every other
/// event, which carries no window id, goes to the library window.
pub proof fn law_events_go_to_their_window(event: Event)
    ensures
        event matches Event::PageDeleted { window_id, .. } ==> event_target(event) == WindowKind::Reader(window_id),
        event matches Event::ReaderBookChanged { window_id } ==> event_target(event) == WindowKind::Reader(window_id),
        !(event is PageDeleted) && !(event is ReaderBookChanged) ==> event_target(event) == WindowKind::Main,
        event_target(event) is Main <==> !(event is PageDeleted) && !(event is ReaderBookChanged),
{
}

/// Events of different kinds have different names, so the window can tell them apart; and
/// each name is the event's kind written in snake case, whatever the event carries.
pub proof fn law_event_names_tell_kinds_apart(a: Event, b: Event)
    ensures
        event_name(a) == event_name(b) ==> (a is BookAdded <==> b is BookAdded) && (a is BookRemoved
            <==> b is BookRemoved) && (a is CoverExtracted <==> b is CoverExtracted) && (a is PageDeleted
            <==> b is PageDeleted) && (a is RatingUpdated <==> b is RatingUpdated) && (a is ReadUpdated
            <==> b is ReadUpdated) && (a is ReaderBookChanged <==> b is ReaderBookChanged) && (a is LibraryCleared
            <==> b is LibraryCleared),
        a is BookRemoved ==> event_name(a) == "book_removed"@,
        a is BookAdded ==> event_name(a) == "book_added"@,
        a is CoverExtracted ==> event_name(a) == "cover_extracted"@,
        a is PageDeleted ==> event_name(a) == "page_deleted"@,
        a is RatingUpdated ==> event_name(a) == "rating_updated"@,
        a is ReadUpdated ==> event_name(a) == "read_updated"@,
        a is ReaderBookChanged ==> event_name(a) == "reader_book_changed"@,
        a is LibraryCleared ==> event_name(a) == "library_cleared"@,
{
    reveal_strlit("book_added");
    reveal_strlit("book_removed");
    reveal_strlit("cover_extracted");
    reveal_strlit("page_deleted");
    reveal_strlit("rating_updated");
    reveal_strlit("read_updated");
    reveal_strlit("reader_book_changed");
    reveal_strlit("library_cleared");
    assert("book_added"@.len() == 10);
    assert("book_removed"@.len() == 12);
    assert("cover_extracted"@.len() == 15);
    assert("page_deleted"@.len() == 12);
    assert("rating_updated"@.len() == 14);
    assert("read_updated"@.len() == 12);
    assert("reader_book_changed"@.len() == 19);
    assert("library_cleared"@.len() == 15);
    assert("book_removed"@[0] != "page_deleted"@[0] && "book_removed"@[0] != "read_updated"@[0]);
    assert("page_deleted"@[0] != "read_updated"@[0]);
    assert("cover_extracted"@[0] != "library_cleared"@[0]);
}

} // verus!
