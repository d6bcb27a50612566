//! Decision logic of a crawler that mirrors a listing of specifications into
//! a directory tree, one subdirectory per status.
//!
//! The library decides and performs no input or output. [`listing`] turns the
//! rows of the listing page into entries; [`crawl`] walks the entries;
//! [`download`] takes one entry from its address to a file, by way of at most
//! one landing page ([`landing`]), the content type ([`response`]) and the
//! file name in the content-disposition header ([`header`]). A driver outside
//! the library performs the requests and file operations that these ask for.
//!
//! HTML and JSON are read by `scraper` and `serde_json`, behind the functions
//! of [`markup`] and [`json`].

pub mod crawl;
pub mod download;
pub mod error;
pub mod header;
pub mod json;
pub mod landing;
pub mod listing;
pub mod markup;
pub mod response;
pub mod text;
