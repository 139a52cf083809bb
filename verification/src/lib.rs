//! A small persistence library for one journaling "daily page" per calendar
//! date, backed by an embedded SQLite database (through the `rusqlite` crate).
//!
//! The store keeps at most one [`page::Page`] per `date` key.  Its observable
//! behaviour is specified against a mathematical model: a `Map` from the date
//! (as a sequence of characters) to the page's view.  Saving a page inserts or
//! fully overwrites the entry for its date; looking a date up returns exactly
//! the entry of the model, or `None` when the date is absent.

pub mod error;
pub mod laws;
pub mod page;
pub mod path;
pub mod store;
