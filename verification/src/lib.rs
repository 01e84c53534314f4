//! Listing an exposed object-storage bucket page by page and retrieving its
//! objects under a cap on parallel transfers, without doing any I/O: this
//! library builds the requests, reads what came back, and decides what
//! happens next; its owner sends, waits and writes.

pub mod client;
pub mod crawl;
pub mod download;
pub mod error;
pub mod models;
pub mod paths;
pub mod text;
pub mod time;
pub mod url;
