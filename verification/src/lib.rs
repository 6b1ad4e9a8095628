//! Catalog of the federal law service "Gesetze im Internet": the table of
//! contents, short identifiers of its entries, and the text of one law out of
//! its single-file archive.

pub mod address;
pub mod archive;
pub mod client;
pub mod document;
pub mod error;
pub mod item;
pub mod parse;
pub mod search;
pub mod text;
pub mod toc;
pub mod xml;

pub use client::{body_of, start, Command, Pending, Reply, Step};
pub use error::{ArchiveFault, ErrorKind, Failure};
pub use item::{Entry, TocItem};
pub use toc::{toc_get_items, Toc};
