//! Kotori: the rules of a manga reader, verified.

pub mod collections;
pub mod error;
pub mod text;
pub mod natural;
pub mod glob;
pub mod pages;
pub mod paths;
pub mod metadata;
pub mod model;
pub mod cover;
pub mod structs;
pub mod active;
pub mod window;
pub mod event;
pub mod menu;
pub mod table;
pub mod scheduler;
pub mod image;
pub mod library;
pub mod tempfile;
pub mod bookfile;
pub mod dialog;
pub mod mock;
