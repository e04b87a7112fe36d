//! The items of the menus, and the ids that tell which item was chosen.

pub mod app;
pub mod layout;
pub mod library_book;
pub mod reader;
pub mod reader_page;
