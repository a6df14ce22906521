//! A small store of titled list items kept in an embedded SQLite database.
//!
//! The library holds the typed item model, the two patch merge policies, the
//! text searches, the statements sent to the store, the ordering of schema
//! scripts, and the connection pool that all of these run against.

pub mod bootstrap;
pub mod db;
pub mod display;
pub mod element;
pub mod error;
pub mod laws;
pub mod mac;
pub mod query;
pub mod text;

pub use bootstrap::{bootstrap, migration_order, StoreConfig};
pub use db::{ConnectionOptions, DbPool};
pub use element::{ListElement, ListElementPatch, ListElementStatus};
pub use error::Error;
pub use mac::ListElementMAC;
